use openvpn_gui::vpn::manager::{
    auth_path, disconnect_port, last_log_lines, load_stats_command, log_path, management_address,
    mgmt_port, mgmt_port_path, parse_load_stats, pid_path, proc_path, runtime_dir, stats_port,
    stop_command, ConnectPlan, ConnectSession, ConnectStep, DisconnectSession, DisconnectStep,
    VpnError, VpnEvent,
};

#[test]
fn runtime_paths() {
    assert_eq!(runtime_dir(), "/tmp/openvpn-gui");
    assert_eq!(pid_path("work"), "/tmp/openvpn-gui/work.pid");
    assert_eq!(log_path("work"), "/tmp/openvpn-gui/work.log");
    assert_eq!(auth_path("work"), "/tmp/openvpn-gui/work.auth");
    assert_eq!(mgmt_port_path("work"), "/tmp/openvpn-gui/work.mgmt");
    assert_eq!(pid_path("/etc/x"), "/etc/x.pid");
}

#[test]
fn management_port_from_name() {
    assert_eq!(mgmt_port("work"), 25441);
    assert_eq!(mgmt_port(""), 20000);
    assert_eq!(mgmt_port("home-vpn"), 29846);
    assert_eq!(mgmt_port("a\u{e7}a\u{ed}"), 28774);
    assert_eq!(mgmt_port(&"a".repeat(50)), 20608);
}

#[test]
fn management_port_stays_in_range() {
    for name in ["x", "some very long profile name", "\u{1f600}", "ZZZZZZZZZZZZ"] {
        let p = mgmt_port(name);
        assert!((20000..=29999).contains(&p));
    }
}

#[test]
fn port_file_round_trip() {
    let p = mgmt_port("work");
    let text = p.to_string();
    assert_eq!(stats_port(&text), Some(p));
    assert_eq!(disconnect_port("other", Some(&text)), p);
    assert_eq!(stats_port(" 25000\n"), Some(25000));
    assert_eq!(stats_port("abc"), None);
    assert_eq!(stats_port("70000"), None);
    assert_eq!(disconnect_port("work", Some("junk")), 25441);
    assert_eq!(disconnect_port("work", None), 25441);
}

#[test]
fn commands_and_addresses() {
    assert_eq!(management_address(25441), "127.0.0.1:25441");
    assert_eq!(stop_command(), "signal SIGTERM\n");
    assert_eq!(load_stats_command(), "load-stats\n");
    assert_eq!(proc_path(" 1234\n"), "/proc/1234");
}

#[test]
fn load_stats_reply_parsing() {
    let reply = ">INFO:OpenVPN Management Interface\r\nSUCCESS: nclients=0,bytesin=1234,bytesout=5678\r\n";
    assert_eq!(parse_load_stats(reply), Some((1234, 5678)));
    assert_eq!(parse_load_stats("SUCCESS: bytesout=9,bytesin= 8 \n"), Some((8, 9)));
    assert_eq!(parse_load_stats("nothing here\n"), None);
    assert_eq!(parse_load_stats(""), None);
    assert_eq!(parse_load_stats("SUCCESS: bytesin=1\nSUCCESS: bytesin=2,bytesout=3\n"), None);
    assert_eq!(parse_load_stats("SUCCESS: bytesin=x,bytesout=3"), None);
    assert_eq!(parse_load_stats("SUCCESS: a=b=7,bytesin=1=2,bytesout=3"), Some((2, 3)));
}

#[test]
fn log_tail_is_last_five_lines_newest_first() {
    assert_eq!(last_log_lines("1\n2\n3\n4\n5\n6\n7\n"), "7\n6\n5\n4\n3");
    assert_eq!(last_log_lines("only\r\n"), "only");
    assert_eq!(last_log_lines(""), "");
    assert_eq!(last_log_lines("a\nb"), "b\na");
}

#[test]
fn error_messages() {
    let e = VpnError::AlreadyConnected { profile_name: "work".to_string() };
    assert_eq!(e.message(), "Profile 'work' is already connected");
    assert_eq!(VpnError::AuthFileWrite.message(), "Failed to write auth file");
    assert_eq!(VpnError::LaunchFailed.message(), "Failed to execute openvpn");
    let e = VpnError::OpenvpnFailed { stderr: "bad".to_string() };
    assert_eq!(e.message(), "openvpn failed: bad");
    let e = VpnError::ExitedImmediately { log_tail: "x".to_string() };
    assert_eq!(e.message(), "openvpn exited immediately. Log:\nx");
    assert_eq!(VpnError::StillRunning.message(), "Failed to disconnect, process still running");
}

#[test]
fn connect_plan_contents() {
    let p = ConnectPlan::new("work", "/cfg/work.ovpn", "alice", "s3cret");
    assert_eq!(p.auth_contents, "alice\ns3cret\n");
    assert_eq!(p.program, "pkexec");
    assert_eq!(p.port, 25441);
    assert_eq!(p.port_text, "25441");
    assert_eq!(p.port_file, "/tmp/openvpn-gui/work.mgmt");
    let want = [
        "openvpn", "--config", "/cfg/work.ovpn", "--auth-user-pass",
        "/tmp/openvpn-gui/work.auth", "--daemon", "openvpn-gui-work", "--writepid",
        "/tmp/openvpn-gui/work.pid", "--log", "/tmp/openvpn-gui/work.log", "--management",
        "127.0.0.1", "25441",
    ];
    assert_eq!(p.args, want.iter().map(|s| s.to_string()).collect::<Vec<_>>());
}

fn run(events: Vec<VpnEvent>) -> ConnectSession {
    let mut s = ConnectSession::start("work", "/cfg/work.ovpn", "alice", "pw");
    for e in events {
        s.advance(e);
    }
    s
}

fn error_text(s: &ConnectSession) -> String {
    match &s.outcome {
        Some(Err(e)) => e.message(),
        _ => panic!("no error"),
    }
}

#[test]
fn connect_success_path() {
    let s = run(vec![
        VpnEvent::Running(false),
        VpnEvent::Written(true),
        VpnEvent::Completed,
        VpnEvent::Completed,
        VpnEvent::Exited { success: true, stderr: String::new() },
        VpnEvent::Completed,
        VpnEvent::Completed,
        VpnEvent::Running(true),
    ]);
    assert_eq!(s.step, ConnectStep::Done);
    assert!(matches!(s.outcome, Some(Ok(()))));
}

#[test]
fn connect_refuses_running_profile() {
    let s = run(vec![VpnEvent::Running(true)]);
    assert_eq!(s.step, ConnectStep::Done);
    assert_eq!(error_text(&s), "Profile 'work' is already connected");
}

#[test]
fn connect_failures() {
    let s = run(vec![VpnEvent::Running(false), VpnEvent::Written(false)]);
    assert_eq!(error_text(&s), "Failed to write auth file");
    let s = run(vec![
        VpnEvent::Running(false),
        VpnEvent::Written(true),
        VpnEvent::Completed,
        VpnEvent::Completed,
        VpnEvent::LaunchError,
    ]);
    assert_eq!(error_text(&s), "Failed to execute openvpn");
    let s = run(vec![
        VpnEvent::Running(false),
        VpnEvent::Written(true),
        VpnEvent::Completed,
        VpnEvent::Completed,
        VpnEvent::Exited { success: false, stderr: "  denied \n".to_string() },
    ]);
    assert_eq!(s.step, ConnectStep::RemoveAuthFile);
    let mut s = s;
    s.advance(VpnEvent::Completed);
    assert_eq!(error_text(&s), "openvpn failed: denied");
    let s = run(vec![
        VpnEvent::Running(false),
        VpnEvent::Written(true),
        VpnEvent::Completed,
        VpnEvent::Completed,
        VpnEvent::Exited { success: true, stderr: String::new() },
        VpnEvent::Completed,
        VpnEvent::Completed,
        VpnEvent::Running(false),
        VpnEvent::Log(Some("l1\nl2\n".to_string())),
    ]);
    assert_eq!(error_text(&s), "openvpn exited immediately. Log:\nl2\nl1");
}

#[test]
fn connect_ignores_unrelated_events() {
    let mut s = ConnectSession::start("work", "c", "u", "p");
    s.advance(VpnEvent::Completed);
    assert_eq!(s.step, ConnectStep::CheckBefore);
    s.advance(VpnEvent::Running(true));
    s.advance(VpnEvent::Running(false));
    assert_eq!(s.step, ConnectStep::Done);
    assert_eq!(error_text(&s), "Profile 'work' is already connected");
}

#[test]
fn disconnect_paths() {
    let mut d = DisconnectSession::start("work");
    assert_eq!(d.pid_file, "/tmp/openvpn-gui/work.pid");
    assert_eq!(d.port_file, "/tmp/openvpn-gui/work.mgmt");
    d.advance(VpnEvent::PortFile(Some("23456\n".to_string())));
    assert_eq!(d.port, 23456);
    assert_eq!(d.step, DisconnectStep::SendStop);
    for _ in 0..4 {
        d.advance(VpnEvent::Completed);
    }
    assert_eq!(d.step, DisconnectStep::Check);
    let mut still = DisconnectSession { outcome: None, ..d };
    still.advance(VpnEvent::Running(true));
    match &still.outcome {
        Some(Err(e)) => assert_eq!(e.message(), "Failed to disconnect, process still running"),
        _ => panic!("expected an error"),
    }
    let mut d = DisconnectSession::start("work");
    d.advance(VpnEvent::PortFile(None));
    assert_eq!(d.port, 25441);
    for _ in 0..4 {
        d.advance(VpnEvent::Completed);
    }
    d.advance(VpnEvent::Running(false));
    assert_eq!(d.step, DisconnectStep::Done);
    assert!(matches!(d.outcome, Some(Ok(()))));
}
