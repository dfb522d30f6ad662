//! Files, ports, commands and decisions behind connecting and disconnecting
//! a profile through `pkexec openvpn`.
//!
//! Each profile gets a pid file, a log file, a credentials file and a file
//! recording its management port under [`runtime_dir`]; the management port
//! itself is derived from the profile name by [`mgmt_port`].

use vstd::prelude::*;
use crate::path::{join_path, path_join};
use crate::text::{
    append_chars, chars_of, str_concat, decimal, decimal_string, join, join_chars,
    lines_chars, lines_of, parse_u16, parse_u64, parse_unsigned, split_chars, split_on,
    starts_with, string_of, trim, trim_chars, trim_str, contains, contains_chars, occurs_at_chars,
};

verus! {

/// Directory holding the per-profile runtime files.
pub open spec fn runtime_dir_text() -> Seq<char> {
    "/tmp/openvpn-gui"@
}

/// Path of the runtime file of `profile_name` with extension `ext`.
pub open spec fn runtime_file(profile_name: Seq<char>, ext: Seq<char>) -> Seq<char> {
    path_join(runtime_dir_text(), profile_name + ext)
}

/// The directory that holds the pid, log, credentials and port files.
pub fn runtime_dir() -> (d: String)
    ensures
        d@ == runtime_dir_text(),
{
    "/tmp/openvpn-gui".to_owned()
}

fn runtime_path(profile_name: &str, ext: &str) -> (p: String)
    ensures
        p@ == runtime_file(profile_name@, ext@),
{
    let dir = runtime_dir();
    let file = str_concat(profile_name, ext);
    join_path(dir.as_str(), file.as_str())
}

/// Path of the file where `openvpn` writes its process id.
pub fn pid_path(profile_name: &str) -> (p: String)
    ensures
        p@ == runtime_file(profile_name@, ".pid"@),
{
    runtime_path(profile_name, ".pid")
}

/// Path of the `openvpn` log of a profile.
pub fn log_path(profile_name: &str) -> (p: String)
    ensures
        p@ == runtime_file(profile_name@, ".log"@),
{
    runtime_path(profile_name, ".log")
}

/// Path of the temporary credentials file handed to `openvpn`.
pub fn auth_path(profile_name: &str) -> (p: String)
    ensures
        p@ == runtime_file(profile_name@, ".auth"@),
{
    runtime_path(profile_name, ".auth")
}

/// Path of the file recording the management port of a profile.
pub fn mgmt_port_path(profile_name: &str) -> (p: String)
    ensures
        p@ == runtime_file(profile_name@, ".mgmt"@),
{
    runtime_path(profile_name, ".mgmt")
}

/// The 32-bit polynomial hash of a byte string: `h = h * 31 + b` over the
/// bytes, modulo 2^32, starting from 0.
pub open spec fn name_hash(bytes: Seq<u8>) -> nat
    decreases bytes.len(),
{
    if bytes.len() == 0 {
        0
    } else {
        (name_hash(bytes.drop_last()) * 31 + bytes.last() as nat) % 0x1_0000_0000
    }
}

/// The management port of a profile: its name's hash (over its UTF-8
/// bytes) modulo 10000, plus 20000.
pub open spec fn port_for(name: Seq<char>) -> nat {
    name_hash(vstd::utf8::encode_utf8(name)) % 10000 + 20000
}

proof fn lemma_hash_step(h: u32, b: u8)
    ensures
        (h as nat * 31 + b as nat) % 0x1_0000_0000 == h.wrapping_mul(31).wrapping_add(b as u32),
{
    let m = (h as nat * 31) % 0x1_0000_0000;
    assert(h.wrapping_mul(31) == m);
    assert(((h as nat * 31) % 0x1_0000_0000 + b as nat) % 0x1_0000_0000 == (h as nat * 31
        + b as nat) % 0x1_0000_0000) by (nonlinear_arith);
    assert(m + b < 2 * 0x1_0000_0000);
    if m + b >= 0x1_0000_0000 {
        assert((m + b) % 0x1_0000_0000 == m + b - 0x1_0000_0000) by (nonlinear_arith)
            requires
                0x1_0000_0000 <= m + b < 2 * 0x1_0000_0000,
        ;
    } else {
        assert((m + b) % 0x1_0000_0000 == m + b) by (nonlinear_arith)
            requires
                0 <= m + b < 0x1_0000_0000,
        ;
    }
}

/// The local management port that `openvpn` listens on for a profile.
pub fn mgmt_port(profile_name: &str) -> (port: u16)
    ensures
        port == port_for(profile_name@),
        20000 <= port <= 29999,
{
    let bytes = profile_name.as_bytes();
    let mut hash: u32 = 0;
    let mut i: usize = 0;
    while i < bytes.len()
        invariant
            i <= bytes@.len(),
            bytes@ == vstd::utf8::encode_utf8(profile_name@),
            hash as nat == name_hash(bytes@.take(i as int)),
        decreases bytes.len() - i,
    {
        proof {
            lemma_hash_step(hash, bytes@[i as int]);
            assert(bytes@.take(i + 1 as int).drop_last() == bytes@.take(i as int));
        }
        hash = hash.wrapping_mul(31).wrapping_add(bytes[i] as u32);
        i = i + 1;
    }
    assert(bytes@.take(bytes.len() as int) == bytes@);
    (hash % 10000 + 20000) as u16
}


/// Why connecting or disconnecting failed.
pub enum VpnError {
    /// `openvpn` is already running for the profile.
    AlreadyConnected { profile_name: String },
    /// The credentials file could not be written.
    AuthFileWrite,
    /// `pkexec openvpn` could not be started.
    LaunchFailed,
    /// `openvpn` exited unsuccessfully; `stderr` is its trimmed error output.
    OpenvpnFailed { stderr: String },
    /// `openvpn` was not running after start-up; `log_tail` is the end of its log.
    ExitedImmediately { log_tail: String },
    /// `openvpn` was still running after the stop request.
    StillRunning,
}

/// The text shown for an error.
pub open spec fn error_text(e: VpnError) -> Seq<char> {
    match e {
        VpnError::AlreadyConnected { profile_name } => "Profile '"@ + profile_name@
            + "' is already connected"@,
        VpnError::AuthFileWrite => "Failed to write auth file"@,
        VpnError::LaunchFailed => "Failed to execute openvpn"@,
        VpnError::OpenvpnFailed { stderr } => "openvpn failed: "@ + stderr@,
        VpnError::ExitedImmediately { log_tail } => "openvpn exited immediately. Log:\n"@
            + log_tail@,
        VpnError::StillRunning => "Failed to disconnect, process still running"@,
    }
}

impl VpnError {
    /// The text shown for this error.
    pub fn message(&self) -> (m: String)
        ensures
            m@ == error_text(*self),
    {
        match self {
            VpnError::AlreadyConnected { profile_name } => {
                let a = str_concat("Profile '", profile_name.as_str());
                str_concat(a.as_str(), "' is already connected")
            },
            VpnError::AuthFileWrite => "Failed to write auth file".to_owned(),
            VpnError::LaunchFailed => "Failed to execute openvpn".to_owned(),
            VpnError::OpenvpnFailed { stderr } => str_concat("openvpn failed: ", stderr.as_str()),
            VpnError::ExitedImmediately { log_tail } => str_concat(
                "openvpn exited immediately. Log:\n",
                log_tail.as_str(),
            ),
            VpnError::StillRunning => "Failed to disconnect, process still running".to_owned(),
        }
    }
}

/// The last (at most five) lines of a log, newest first, joined by `\n`.
pub open spec fn log_tail(log: Seq<char>) -> Seq<char> {
    let ls = lines_of(log);
    let k = if ls.len() < 5 { ls.len() } else { 5 };
    join(ls.reverse().take(k as int), "\n"@)
}

/// The end of an `openvpn` log reported when the daemon dies at start-up.
pub fn last_log_lines(log: &str) -> (t: String)
    ensures
        t@ == log_tail(log@),
{
    let v = chars_of(log);
    let ls = lines_chars(&v);
    let n = ls.len();
    let k = if n < 5 {
        n
    } else {
        5
    };
    let ghost views = lines_of(v@);
    let mut picked: Vec<Vec<char>> = Vec::new();
    let mut j: usize = 0;
    while j < k
        invariant
            n == ls@.len() == views.len(),
            k <= n,
            k <= 5,
            j <= k,
            views == lines_of(log@),
            forall|m: int| 0 <= m < n ==> #[trigger] ls@[m]@ == views[m],
            picked@.len() == j,
            forall|m: int| 0 <= m < j ==> #[trigger] picked@[m]@ == views.reverse()[m],
        decreases k - j,
    {
        let mut line: Vec<char> = Vec::new();
        append_chars(&mut line, &ls[n - 1 - j]);
        picked.push(line);
        j = j + 1;
    }
    let sep = chars_of("\n");
    let joined = join_chars(&picked, &sep);
    assert(picked@.map_values(|p: Vec<char>| p@) == views.reverse().take(k as int));
    string_of(&joined)
}

/// The text of the credentials file: user name and password on lines of
/// their own.
pub open spec fn auth_text(username: Seq<char>, password: Seq<char>) -> Seq<char> {
    username + "\n"@ + password + "\n"@
}

/// The arguments given to `pkexec` to start `openvpn` as a daemon with its
/// pid file, log and local management interface.
pub open spec fn openvpn_arguments(
    profile_name: Seq<char>,
    config_path: Seq<char>,
    auth_file: Seq<char>,
    pid_file: Seq<char>,
    log_file: Seq<char>,
    port: nat,
) -> Seq<Seq<char>> {
    seq![
        "openvpn"@,
        "--config"@,
        config_path,
        "--auth-user-pass"@,
        auth_file,
        "--daemon"@,
        "openvpn-gui-"@ + profile_name,
        "--writepid"@,
        pid_file,
        "--log"@,
        log_file,
        "--management"@,
        "127.0.0.1"@,
        decimal(port),
    ]
}

/// The views of a vector of strings.
pub open spec fn string_views(v: Seq<String>) -> Seq<Seq<char>> {
    v.map_values(|s: String| s@)
}

/// Everything `connect` writes and runs for one profile.
pub struct ConnectPlan {
    pub profile_name: String,
    pub auth_file: String,
    pub auth_contents: String,
    pub pid_file: String,
    pub log_file: String,
    pub port: u16,
    pub port_file: String,
    pub port_text: String,
    pub program: String,
    pub args: Vec<String>,
}

impl ConnectPlan {
    /// The plan is the one for these inputs.
    pub open spec fn is_plan_for(
        self,
        profile_name: Seq<char>,
        config_path: Seq<char>,
        username: Seq<char>,
        password: Seq<char>,
    ) -> bool {
        &&& self.profile_name@ == profile_name
        &&& self.auth_file@ == runtime_file(profile_name, ".auth"@)
        &&& self.auth_contents@ == auth_text(username, password)
        &&& self.pid_file@ == runtime_file(profile_name, ".pid"@)
        &&& self.log_file@ == runtime_file(profile_name, ".log"@)
        &&& self.port == port_for(profile_name)
        &&& self.port_file@ == runtime_file(profile_name, ".mgmt"@)
        &&& self.port_text@ == decimal(self.port as nat)
        &&& self.program@ == "pkexec"@
        &&& string_views(self.args@) == openvpn_arguments(
            profile_name,
            config_path,
            self.auth_file@,
            self.pid_file@,
            self.log_file@,
            self.port as nat,
        )
    }

    /// Computes the files, port and command line used to connect a profile.
    pub fn new(profile_name: &str, config_path: &str, username: &str, password: &str) -> (p: Self)
        ensures
            p.is_plan_for(profile_name@, config_path@, username@, password@),
    {
        let auth_file = auth_path(profile_name);
        let pid_file = pid_path(profile_name);
        let log_file = log_path(profile_name);
        let port = mgmt_port(profile_name);
        let port_file = mgmt_port_path(profile_name);
        let port_text = decimal_string(port as u64);
        let u = str_concat(username, "\n");
        let up = str_concat(u.as_str(), password);
        let auth_contents = str_concat(up.as_str(), "\n");
        let mut args: Vec<String> = Vec::new();
        args.push("openvpn".to_owned());
        args.push("--config".to_owned());
        args.push(config_path.to_owned());
        args.push("--auth-user-pass".to_owned());
        args.push(auth_file.clone());
        args.push("--daemon".to_owned());
        args.push(str_concat("openvpn-gui-", profile_name));
        args.push("--writepid".to_owned());
        args.push(pid_file.clone());
        args.push("--log".to_owned());
        args.push(log_file.clone());
        args.push("--management".to_owned());
        args.push("127.0.0.1".to_owned());
        args.push(port_text.clone());
        let p = ConnectPlan {
            profile_name: profile_name.to_owned(),
            auth_file,
            auth_contents,
            pid_file,
            log_file,
            port,
            port_file,
            port_text,
            program: "pkexec".to_owned(),
            args,
        };
        assert(string_views(p.args@) =~= openvpn_arguments(
            profile_name@,
            config_path@,
            p.auth_file@,
            p.pid_file@,
            p.log_file@,
            p.port as nat,
        ));
        p
    }
}


/// What the caller reports back after carrying out the pending step of a
/// session.
pub enum VpnEvent {
    /// Result of checking whether `openvpn` runs for the profile.
    Running(bool),
    /// Whether a file was written.
    Written(bool),
    /// The step was carried out (its own failure, if any, is ignored).
    Completed,
    /// `pkexec openvpn` ran and exited; `stderr` is its error output.
    Exited { success: bool, stderr: String },
    /// `pkexec openvpn` could not be started.
    LaunchError,
    /// The log file's content, if it could be read.
    Log(Option<String>),
    /// The management port file's content, if it could be read.
    PortFile(Option<String>),
}

/// The step a connect session waits on.
#[derive(PartialEq, Eq, Structural, Clone, Copy, Debug)]
pub enum ConnectStep {
    /// Check whether `openvpn` already runs (pid file and process).
    CheckBefore,
    /// Write `plan.auth_contents` to `plan.auth_file`.
    WriteAuthFile,
    /// Make the credentials file readable by its owner only.
    RestrictAuthFile,
    /// Write `plan.port_text` to `plan.port_file`.
    WritePortFile,
    /// Run `plan.program` with `plan.args` and wait for it.
    Launch,
    /// Delete the credentials file.
    RemoveAuthFile,
    /// Let the daemon start (`CONNECT_SETTLE_MS` milliseconds).
    Settle,
    /// Check again whether `openvpn` runs.
    CheckAfter,
    /// Read `plan.log_file`.
    ReadLog,
    /// Finished; the outcome is known.
    Done,
}

/// Milliseconds to wait for the daemon after `openvpn` returned.
pub const CONNECT_SETTLE_MS: u64 = 500;

/// The decisions of connecting a profile, one step at a time.
pub struct ConnectSession {
    pub plan: ConnectPlan,
    pub step: ConnectStep,
    pub launch_succeeded: bool,
    pub launch_stderr: String,
    pub outcome: Option<Result<(), VpnError>>,
}

/// An outcome that is the given error.
pub open spec fn is_error(o: Option<Result<(), VpnError>>, text: Seq<char>) -> bool {
    o matches Some(Err(e)) && error_text(e) == text
}

/// One step of a connect session: `new` follows `old` on `event`.  An event
/// that does not answer the pending step leaves the session unchanged.
pub open spec fn connect_transition(old: ConnectSession, event: VpnEvent, new: ConnectSession) -> bool {
    let name = old.plan.profile_name@;
    let kept = new.plan == old.plan && new.launch_succeeded == old.launch_succeeded
        && new.launch_stderr == old.launch_stderr;
    match (old.step, event) {
        (ConnectStep::CheckBefore, VpnEvent::Running(true)) => kept && new.step == ConnectStep::Done
            && (new.outcome matches Some(Err(VpnError::AlreadyConnected { profile_name }))
            && profile_name@ == name),
        (ConnectStep::CheckBefore, VpnEvent::Running(false)) => kept && new.step
            == ConnectStep::WriteAuthFile && new.outcome is None,
        (ConnectStep::WriteAuthFile, VpnEvent::Written(false)) => kept && new.step
            == ConnectStep::Done && new.outcome matches Some(Err(VpnError::AuthFileWrite)),
        (ConnectStep::WriteAuthFile, VpnEvent::Written(true)) => kept && new.step
            == ConnectStep::RestrictAuthFile && new.outcome is None,
        (ConnectStep::RestrictAuthFile, VpnEvent::Completed) => kept && new.step
            == ConnectStep::WritePortFile && new.outcome is None,
        (ConnectStep::WritePortFile, VpnEvent::Completed) => kept && new.step == ConnectStep::Launch
            && new.outcome is None,
        (ConnectStep::Launch, VpnEvent::LaunchError) => kept && new.step == ConnectStep::Done
            && new.outcome matches Some(Err(VpnError::LaunchFailed)),
        (ConnectStep::Launch, VpnEvent::Exited { success, stderr }) => new.plan == old.plan
            && new.step == ConnectStep::RemoveAuthFile && new.outcome is None
            && new.launch_succeeded == success && new.launch_stderr@ == stderr@,
        (ConnectStep::RemoveAuthFile, VpnEvent::Completed) => kept && if old.launch_succeeded {
            new.step == ConnectStep::Settle && new.outcome is None
        } else {
            new.step == ConnectStep::Done && (new.outcome matches Some(
                Err(VpnError::OpenvpnFailed { stderr }),
            ) && stderr@ == trim(old.launch_stderr@))
        },
        (ConnectStep::Settle, VpnEvent::Completed) => kept && new.step == ConnectStep::CheckAfter
            && new.outcome is None,
        (ConnectStep::CheckAfter, VpnEvent::Running(true)) => kept && new.step == ConnectStep::Done
            && new.outcome == Some(Ok::<(), VpnError>(())),
        (ConnectStep::CheckAfter, VpnEvent::Running(false)) => kept && new.step
            == ConnectStep::ReadLog && new.outcome is None,
        (ConnectStep::ReadLog, VpnEvent::Log(log)) => kept && new.step == ConnectStep::Done && (
        new.outcome matches Some(Err(VpnError::ExitedImmediately { log_tail: t })) && t@
            == log_tail(
            match log {
                Some(l) => l@,
                None => Seq::<char>::empty(),
            },
        )),
        _ => new == old,
    }
}

impl ConnectSession {
    /// The session is well formed: it has an outcome exactly when done.
    pub open spec fn wf(self) -> bool {
        self.outcome is Some <==> self.step == ConnectStep::Done
    }

    /// Starts connecting a profile: the first step is checking whether
    /// `openvpn` already runs for it.
    pub fn start(profile_name: &str, config_path: &str, username: &str, password: &str) -> (s: Self)
        ensures
            s.plan.is_plan_for(profile_name@, config_path@, username@, password@),
            s.step == ConnectStep::CheckBefore,
            s.outcome is None,
            s.wf(),
    {
        ConnectSession {
            plan: ConnectPlan::new(profile_name, config_path, username, password),
            step: ConnectStep::CheckBefore,
            launch_succeeded: false,
            launch_stderr: String::new(),
            outcome: None,
        }
    }

    /// Takes the result of the pending step and moves to the next one.
    pub fn advance(&mut self, event: VpnEvent)
        requires
            old(self).wf(),
        ensures
            connect_transition(*old(self), event, *final(self)),
            final(self).wf(),
            final(self).step == ConnectStep::CheckAfter && old(self).step != ConnectStep::CheckAfter
                ==> old(self).step == ConnectStep::Settle,
            old(self).step == ConnectStep::RemoveAuthFile && old(self).launch_succeeded
                && event is Completed ==> final(self).step == ConnectStep::Settle,
            final(self).step == ConnectStep::Settle && old(self).step != ConnectStep::Settle
                ==> old(self).step == ConnectStep::RemoveAuthFile && old(self).launch_succeeded,
    {
        match (self.step, event) {
            (ConnectStep::CheckBefore, VpnEvent::Running(running)) => {
                if running {
                    self.outcome = Some(
                        Err(VpnError::AlreadyConnected { profile_name: self.plan.profile_name.clone() }),
                    );
                    self.step = ConnectStep::Done;
                } else {
                    self.step = ConnectStep::WriteAuthFile;
                }
            },
            (ConnectStep::WriteAuthFile, VpnEvent::Written(ok)) => {
                if ok {
                    self.step = ConnectStep::RestrictAuthFile;
                } else {
                    self.outcome = Some(Err(VpnError::AuthFileWrite));
                    self.step = ConnectStep::Done;
                }
            },
            (ConnectStep::RestrictAuthFile, VpnEvent::Completed) => {
                self.step = ConnectStep::WritePortFile;
            },
            (ConnectStep::WritePortFile, VpnEvent::Completed) => {
                self.step = ConnectStep::Launch;
            },
            (ConnectStep::Launch, VpnEvent::LaunchError) => {
                self.outcome = Some(Err(VpnError::LaunchFailed));
                self.step = ConnectStep::Done;
            },
            (ConnectStep::Launch, VpnEvent::Exited { success, stderr }) => {
                self.launch_succeeded = success;
                self.launch_stderr = stderr;
                self.step = ConnectStep::RemoveAuthFile;
            },
            (ConnectStep::RemoveAuthFile, VpnEvent::Completed) => {
                if self.launch_succeeded {
                    self.step = ConnectStep::Settle;
                } else {
                    let trimmed = trim_str(self.launch_stderr.as_str());
                    self.outcome = Some(Err(VpnError::OpenvpnFailed { stderr: trimmed }));
                    self.step = ConnectStep::Done;
                }
            },
            (ConnectStep::Settle, VpnEvent::Completed) => {
                self.step = ConnectStep::CheckAfter;
            },
            (ConnectStep::CheckAfter, VpnEvent::Running(running)) => {
                if running {
                    self.outcome = Some(Ok(()));
                    self.step = ConnectStep::Done;
                } else {
                    self.step = ConnectStep::ReadLog;
                }
            },
            (ConnectStep::ReadLog, VpnEvent::Log(log)) => {
                let text = match log {
                    Some(l) => l,
                    None => String::new(),
                };
                let tail = last_log_lines(text.as_str());
                self.outcome = Some(Err(VpnError::ExitedImmediately { log_tail: tail }));
                self.step = ConnectStep::Done;
            },
            _ => {},
        }
    }
}


/// The port recorded in a management port file, read as `connect` wrote it
/// (surrounding whitespace ignored); `None` when it is not a port number.
pub open spec fn recorded_port(text: Seq<char>) -> Option<nat> {
    parse_unsigned(trim(text), u16::MAX as nat)
}

/// Reads the port written in a management port file.
pub fn stats_port(text: &str) -> (p: Option<u16>)
    ensures
        match recorded_port(text@) {
            Some(n) => p == Some(n as u16),
            None => p is None,
        },
{
    let v = chars_of(text);
    let t = trim_chars(&v);
    parse_u16(&t)
}

/// The port `disconnect` talks to: the recorded one when the port file was
/// read and holds a port number, otherwise the one derived from the name.
pub open spec fn disconnect_port_for(name: Seq<char>, file: Option<Seq<char>>) -> nat {
    match file {
        Some(t) => match recorded_port(t) {
            Some(p) => p,
            None => port_for(name),
        },
        None => port_for(name),
    }
}

/// Chooses the management port for disconnecting a profile.
pub fn disconnect_port(profile_name: &str, file: Option<&str>) -> (p: u16)
    ensures
        p == disconnect_port_for(profile_name@, match file {
            Some(t) => Some(t@),
            None => None,
        }),
{
    match file {
        Some(t) => match stats_port(t) {
            Some(p) => p,
            None => mgmt_port(profile_name),
        },
        None => mgmt_port(profile_name),
    }
}

/// `host:port` of the local management interface.
pub open spec fn management_address_text(port: nat) -> Seq<char> {
    "127.0.0.1:"@ + decimal(port)
}

/// The address of the local management interface on `port`.
pub fn management_address(port: u16) -> (a: String)
    ensures
        a@ == management_address_text(port as nat),
{
    let d = decimal_string(port as u64);
    str_concat("127.0.0.1:", d.as_str())
}

/// The management command that stops the daemon.
pub fn stop_command() -> (c: String)
    ensures
        c@ == "signal SIGTERM\n"@,
{
    "signal SIGTERM\n".to_owned()
}

/// The management command that asks for the traffic counters.
pub fn load_stats_command() -> (c: String)
    ensures
        c@ == "load-stats\n"@,
{
    "load-stats\n".to_owned()
}

/// Milliseconds to wait after reaching the management interface before
/// sending the stop command.
pub const STOP_BEFORE_MS: u64 = 100;

/// Milliseconds to wait after sending the stop command.
pub const STOP_AFTER_MS: u64 = 300;

/// Milliseconds to wait after removing the pid and port files.
pub const DISCONNECT_SETTLE_MS: u64 = 500;

/// The `/proc` entry of the process whose id a pid file holds.
pub open spec fn proc_entry(pid_text: Seq<char>) -> Seq<char> {
    "/proc/"@ + trim(pid_text)
}

/// The `/proc` path that exists while the daemon of a profile runs.
pub fn proc_path(pid_text: &str) -> (p: String)
    ensures
        p@ == proc_entry(pid_text@),
{
    let t = trim_str(pid_text);
    str_concat("/proc/", t.as_str())
}

/// The step a disconnect session waits on.
#[derive(PartialEq, Eq, Structural, Clone, Copy, Debug)]
pub enum DisconnectStep {
    /// Read `port_file`.
    ReadPortFile,
    /// Send the stop command to `management_address(port)`.
    SendStop,
    /// Delete `pid_file`.
    RemovePidFile,
    /// Delete `port_file`.
    RemovePortFile,
    /// Let the daemon exit (`DISCONNECT_SETTLE_MS` milliseconds).
    Settle,
    /// Check whether `openvpn` still runs.
    Check,
    /// Finished; the outcome is known.
    Done,
}

/// The decisions of disconnecting a profile, one step at a time.
pub struct DisconnectSession {
    pub profile_name: String,
    pub pid_file: String,
    pub port_file: String,
    pub port: u16,
    pub step: DisconnectStep,
    pub outcome: Option<Result<(), VpnError>>,
}

/// One step of a disconnect session: `new` follows `old` on `event`.  An
/// event that does not answer the pending step leaves the session unchanged.
pub open spec fn disconnect_transition(
    old: DisconnectSession,
    event: VpnEvent,
    new: DisconnectSession,
) -> bool {
    let same_files = new.profile_name == old.profile_name && new.pid_file == old.pid_file
        && new.port_file == old.port_file;
    let kept = same_files && new.port == old.port;
    match (old.step, event) {
        (DisconnectStep::ReadPortFile, VpnEvent::PortFile(file)) => same_files && new.step
            == DisconnectStep::SendStop && new.outcome is None && new.port
            == disconnect_port_for(
            old.profile_name@,
            match file {
                Some(t) => Some(t@),
                None => None,
            },
        ),
        (DisconnectStep::SendStop, VpnEvent::Completed) => kept && new.step
            == DisconnectStep::RemovePidFile && new.outcome is None,
        (DisconnectStep::RemovePidFile, VpnEvent::Completed) => kept && new.step
            == DisconnectStep::RemovePortFile && new.outcome is None,
        (DisconnectStep::RemovePortFile, VpnEvent::Completed) => kept && new.step
            == DisconnectStep::Settle && new.outcome is None,
        (DisconnectStep::Settle, VpnEvent::Completed) => kept && new.step == DisconnectStep::Check
            && new.outcome is None,
        (DisconnectStep::Check, VpnEvent::Running(true)) => kept && new.step == DisconnectStep::Done
            && new.outcome matches Some(Err(VpnError::StillRunning)),
        (DisconnectStep::Check, VpnEvent::Running(false)) => kept && new.step
            == DisconnectStep::Done && new.outcome == Some(Ok::<(), VpnError>(())),
        _ => new == old,
    }
}

impl DisconnectSession {
    /// The session is well formed: it has an outcome exactly when done.
    pub open spec fn wf(self) -> bool {
        self.outcome is Some <==> self.step == DisconnectStep::Done
    }

    /// Starts disconnecting a profile: the first step is reading the port
    /// file that `connect` wrote.
    pub fn start(profile_name: &str) -> (s: Self)
        ensures
            s.profile_name@ == profile_name@,
            s.pid_file@ == runtime_file(profile_name@, ".pid"@),
            s.port_file@ == runtime_file(profile_name@, ".mgmt"@),
            s.port == port_for(profile_name@),
            s.step == DisconnectStep::ReadPortFile,
            s.outcome is None,
            s.wf(),
    {
        DisconnectSession {
            profile_name: profile_name.to_owned(),
            pid_file: pid_path(profile_name),
            port_file: mgmt_port_path(profile_name),
            port: mgmt_port(profile_name),
            step: DisconnectStep::ReadPortFile,
            outcome: None,
        }
    }

    /// Takes the result of the pending step and moves to the next one.
    pub fn advance(&mut self, event: VpnEvent)
        requires
            old(self).wf(),
        ensures
            disconnect_transition(*old(self), event, *final(self)),
            final(self).wf(),
    {
        match (self.step, event) {
            (DisconnectStep::ReadPortFile, VpnEvent::PortFile(file)) => {
                let p = match &file {
                    Some(t) => disconnect_port(self.profile_name.as_str(), Some(t.as_str())),
                    None => disconnect_port(self.profile_name.as_str(), None),
                };
                self.port = p;
                self.step = DisconnectStep::SendStop;
            },
            (DisconnectStep::SendStop, VpnEvent::Completed) => {
                self.step = DisconnectStep::RemovePidFile;
            },
            (DisconnectStep::RemovePidFile, VpnEvent::Completed) => {
                self.step = DisconnectStep::RemovePortFile;
            },
            (DisconnectStep::RemovePortFile, VpnEvent::Completed) => {
                self.step = DisconnectStep::Settle;
            },
            (DisconnectStep::Settle, VpnEvent::Completed) => {
                self.step = DisconnectStep::Check;
            },
            (DisconnectStep::Check, VpnEvent::Running(running)) => {
                if running {
                    self.outcome = Some(Err(VpnError::StillRunning));
                } else {
                    self.outcome = Some(Ok(()));
                }
                self.step = DisconnectStep::Done;
            },
            _ => {},
        }
    }
}


/// The first of `fields[i..]` that contains `key`.
pub open spec fn first_containing(fields: Seq<Seq<char>>, key: Seq<char>, i: int) -> Option<Seq<char>>
    decreases fields.len() - i,
{
    if i < 0 || i >= fields.len() {
        None
    } else if contains(fields[i], key) {
        Some(fields[i])
    } else {
        first_containing(fields, key, i + 1)
    }
}

/// The counter named by `key` (such as `bytesin=`) in a `load-stats`
/// reply line: the first comma-separated field containing `key`, its text
/// after the last `=`, trimmed and read as a `u64`.
pub open spec fn counter_value(line: Seq<char>, key: Seq<char>) -> Option<nat> {
    match first_containing(split_on(line, ','), key, 0) {
        None => None,
        Some(f) => parse_unsigned(trim(split_on(f, '=').last()), u64::MAX as nat),
    }
}

/// The byte counters of a `SUCCESS:` reply line, when both are present.
pub open spec fn stats_of_line(line: Seq<char>) -> Option<(nat, nat)> {
    match (counter_value(line, "bytesin="@), counter_value(line, "bytesout="@)) {
        (Some(i), Some(o)) => Some((i, o)),
        _ => None,
    }
}

/// The first of `ls[i..]` that starts with `SUCCESS:`.
pub open spec fn first_success(ls: Seq<Seq<char>>, i: int) -> Option<Seq<char>>
    decreases ls.len() - i,
{
    if i < 0 || i >= ls.len() {
        None
    } else if starts_with(ls[i], "SUCCESS:"@) {
        Some(ls[i])
    } else {
        first_success(ls, i + 1)
    }
}

/// The traffic counters in a reply to `load-stats`: those of the first
/// line starting with `SUCCESS:`; `None` without such a line or when that
/// line lacks a readable `bytesin=` or `bytesout=` counter.
pub open spec fn load_stats_of(reply: Seq<char>) -> Option<(nat, nat)> {
    match first_success(lines_of(reply), 0) {
        None => None,
        Some(l) => stats_of_line(l),
    }
}

pub proof fn lemma_first_containing_found(fields: Seq<Seq<char>>, key: Seq<char>, i: int)
    requires
        0 <= i,
    ensures
        first_containing(fields, key, i) matches Some(f) ==> exists|j: int|
            i <= j < fields.len() && #[trigger] fields[j] == f && contains(f, key),
    decreases fields.len() - i,
{
    if 0 <= i < fields.len() && !contains(fields[i], key) {
        lemma_first_containing_found(fields, key, i + 1);
    }
}

/// A comma-separated field of `line` contains `key`, and its text after the
/// last `=`, trimmed, reads as `n`.
pub open spec fn has_field_value(line: Seq<char>, key: Seq<char>, n: nat) -> bool {
    exists|j: int|
        0 <= j < split_on(line, ',').len() && contains(#[trigger] split_on(line, ',')[j], key)
            && parse_unsigned(trim(split_on(split_on(line, ',')[j], '=').last()), u64::MAX as nat)
            == Some(n)
}

/// Law: the counters read from a reply come from its first `SUCCESS:`
/// line, bytes in from a field containing `bytesin=` and bytes out from a
/// field containing `bytesout=`, whatever their sizes; when that line has
/// both readable counters, they are the result in that order.
pub proof fn lemma_load_stats_reads_named_fields(reply: Seq<char>)
    ensures
        load_stats_of(reply) matches Some((i, o)) ==> (first_success(lines_of(reply), 0) matches Some(
            l,
        ) && starts_with(l, "SUCCESS:"@) && has_field_value(l, "bytesin="@, i) && has_field_value(
            l,
            "bytesout="@,
            o,
        )),
        match first_success(lines_of(reply), 0) {
            Some(l) => match (counter_value(l, "bytesin="@), counter_value(l, "bytesout="@)) {
                (Some(a), Some(b)) => load_stats_of(reply) == Some((a, b)),
                _ => load_stats_of(reply) is None,
            },
            None => true,
        },
        first_success(lines_of(reply), 0) is None ==> load_stats_of(reply) is None,
{
    lemma_first_success_found(lines_of(reply), 0);
    if let Some(l) = first_success(lines_of(reply), 0) {
        lemma_first_containing_found(split_on(l, ','), "bytesin="@, 0);
        lemma_first_containing_found(split_on(l, ','), "bytesout="@, 0);
        assert(load_stats_of(reply) == stats_of_line(l));
        if let (Some(a), Some(b)) = (counter_value(l, "bytesin="@), counter_value(l, "bytesout="@)) {
            assert(stats_of_line(l) == Some((a, b)));
        }
    }
}

pub proof fn lemma_first_success_found(ls: Seq<Seq<char>>, i: int)
    requires
        0 <= i,
    ensures
        first_success(ls, i) matches Some(l) ==> starts_with(l, "SUCCESS:"@),
    decreases ls.len() - i,
{
    if 0 <= i < ls.len() && !starts_with(ls[i], "SUCCESS:"@) {
        lemma_first_success_found(ls, i + 1);
    }
}

fn counter_in_line(line: &Vec<char>, key: &Vec<char>) -> (r: Option<u64>)
    ensures
        match counter_value(line@, key@) {
            Some(n) => r == Some(n as u64),
            None => r is None,
        },
{
    let fields = split_chars(line, ',');
    let ghost fv = split_on(line@, ',');
    let mut i: usize = 0;
    while i < fields.len()
        invariant
            i <= fields@.len() == fv.len(),
            fv == split_on(line@, ','),
            forall|j: int| 0 <= j < fv.len() ==> #[trigger] fields@[j]@ == fv[j],
            first_containing(fv, key@, 0) == first_containing(fv, key@, i as int),
        decreases fields.len() - i,
    {
        if contains_chars(&fields[i], key) {
            let parts = split_chars(&fields[i], '=');
            proof {
                crate::text::lemma_split_nonempty(fields@[i as int]@, '=');
            }
            let t = trim_chars(&parts[parts.len() - 1]);
            return parse_u64(&t);
        }
        i = i + 1;
    }
    None
}

/// Reads the byte counters from a reply to the `load-stats` management
/// command.
pub fn parse_load_stats(reply: &str) -> (r: Option<(u64, u64)>)
    ensures
        match load_stats_of(reply@) {
            Some((i, o)) => r == Some((i as u64, o as u64)),
            None => r is None,
        },
        r matches Some((i, o)) ==> (first_success(lines_of(reply@), 0) matches Some(l) && counter_value(
            l,
            "bytesin="@,
        ) == Some(i as nat) && counter_value(l, "bytesout="@) == Some(o as nat)),
{
    let v = chars_of(reply);
    let ls = lines_chars(&v);
    let ghost lv = lines_of(v@);
    let prefix = chars_of("SUCCESS:");
    let key_in = chars_of("bytesin=");
    let key_out = chars_of("bytesout=");
    let mut i: usize = 0;
    while i < ls.len()
        invariant
            i <= ls@.len() == lv.len(),
            lv == lines_of(reply@),
            prefix@ == "SUCCESS:"@,
            key_in@ == "bytesin="@,
            key_out@ == "bytesout="@,
            forall|j: int| 0 <= j < lv.len() ==> #[trigger] ls@[j]@ == lv[j],
            first_success(lv, 0) == first_success(lv, i as int),
        decreases ls.len() - i,
    {
        if occurs_at_chars(&ls[i], &prefix, 0) {
            let bytes_in = counter_in_line(&ls[i], &key_in);
            let bytes_out = counter_in_line(&ls[i], &key_out);
            return match (bytes_in, bytes_out) {
                (Some(a), Some(b)) => Some((a, b)),
                _ => None,
            };
        }
        i = i + 1;
    }
    None
}


proof fn lemma_trim_decimal(n: nat)
    ensures
        trim(decimal(n)) == decimal(n),
{
    crate::text::lemma_decimal_digits(n);
    let d = decimal(n);
    assert(crate::text::is_digit(d[0]));
    assert(crate::text::is_digit(d.last()));
}

/// Law: the port text `connect` writes to the management port file reads
/// back as the same port, both for the traffic counters and for
/// disconnecting.
pub proof fn lemma_port_file_roundtrip(profile_name: Seq<char>, port: nat)
    requires
        port <= u16::MAX,
    ensures
        recorded_port(decimal(port)) == Some(port),
        disconnect_port_for(profile_name, Some(decimal(port))) == port,
{
    lemma_trim_decimal(port);
    crate::text::lemma_parse_decimal_roundtrip(port, u16::MAX as nat);
}

/// Law: the management port derived from a profile name always lies in
/// `20000..=29999`, so it fits the port file and its text reads back.
pub proof fn lemma_derived_port_roundtrip(profile_name: Seq<char>)
    ensures
        20000 <= port_for(profile_name) <= 29999,
        recorded_port(decimal(port_for(profile_name))) == Some(port_for(profile_name)),
{
    lemma_port_file_roundtrip(profile_name, port_for(profile_name));
}

/// Law: the only way to the check for the daemon after start-up is through
/// the settling wait, and the settling wait follows removing the
/// credentials file after `openvpn` succeeded.
pub proof fn lemma_connect_settles_before_check(
    old: ConnectSession,
    event: VpnEvent,
    new: ConnectSession,
)
    requires
        connect_transition(old, event, new),
    ensures
        new.step == ConnectStep::CheckAfter && old.step != ConnectStep::CheckAfter ==> old.step
            == ConnectStep::Settle && event is Completed,
        new.step == ConnectStep::Settle && old.step != ConnectStep::Settle ==> old.step
            == ConnectStep::RemoveAuthFile && old.launch_succeeded && event is Completed,
        old.step == ConnectStep::RemoveAuthFile && old.launch_succeeded && event is Completed
            ==> new.step == ConnectStep::Settle,
{
}

/// Law: a connect session reports success only on the step that checks
/// for the daemon after start-up, and only when the daemon runs.
pub proof fn lemma_connect_success_needs_daemon(
    old: ConnectSession,
    event: VpnEvent,
    new: ConnectSession,
)
    requires
        old.wf(),
        connect_transition(old, event, new),
        old.outcome is None,
        new.outcome == Some(Ok::<(), VpnError>(())),
    ensures
        old.step == ConnectStep::CheckAfter,
        event == VpnEvent::Running(true),
{
}

/// Law: a connect session finds the daemon already running only as its
/// first check, and then stops before writing any file.
pub proof fn lemma_connect_refuses_running_profile(old: ConnectSession, new: ConnectSession)
    requires
        old.wf(),
        old.step == ConnectStep::CheckBefore,
        connect_transition(old, VpnEvent::Running(true), new),
    ensures
        new.step == ConnectStep::Done,
        is_error(new.outcome, "Profile '"@ + old.plan.profile_name@ + "' is already connected"@),
{
}

/// Law: once `openvpn` has run, whatever its result, the next step of a
/// connect session removes the credentials file.
pub proof fn lemma_connect_removes_credentials(
    old: ConnectSession,
    success: bool,
    stderr: String,
    new: ConnectSession,
)
    requires
        old.wf(),
        old.step == ConnectStep::Launch,
        connect_transition(old, VpnEvent::Exited { success, stderr }, new),
    ensures
        new.step == ConnectStep::RemoveAuthFile,
        new.outcome is None,
{
}

/// Law: a finished session, connecting or disconnecting, ignores every
/// further event.
pub proof fn lemma_finished_sessions_stay(
    c_old: ConnectSession,
    c_new: ConnectSession,
    d_old: DisconnectSession,
    d_new: DisconnectSession,
    event: VpnEvent,
)
    requires
        c_old.step == ConnectStep::Done,
        connect_transition(c_old, event, c_new),
        d_old.step == DisconnectStep::Done,
        disconnect_transition(d_old, event, d_new),
    ensures
        c_new == c_old,
        d_new == d_old,
{
}

/// Law: a disconnect session reports success exactly when the daemon is
/// no longer found running in its final check.
pub proof fn lemma_disconnect_outcome(
    old: DisconnectSession,
    running: bool,
    new: DisconnectSession,
)
    requires
        old.wf(),
        old.step == DisconnectStep::Check,
        disconnect_transition(old, VpnEvent::Running(running), new),
    ensures
        new.step == DisconnectStep::Done,
        (new.outcome == Some(Ok::<(), VpnError>(()))) <==> !running,
        running ==> is_error(new.outcome, "Failed to disconnect, process still running"@),
{
}

} // verus!
