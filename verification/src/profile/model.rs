//! The stored description of one imported OpenVPN configuration.

use vstd::prelude::*;
use crate::text::{append_chars, decimal, padded_decimal, string_of, zero_pad};

verus! {

/// One imported OpenVPN configuration.
#[derive(Debug, Clone)]
pub struct VpnProfile {
    /// The name shown for the profile (the file name without `.ovpn`/`.conf`).
    pub name: String,
    /// Where the imported configuration file was copied to.
    pub config_path: String,
    /// Import date, `YYYY-MM-DD` in the simplified calendar of `import_date`.
    pub imported_at: String,
    /// Saved user name, if any.
    pub username: Option<String>,
    /// Saved password, if any.
    pub password: Option<String>,
}

/// `std::time::SystemTime`, an opaque moment of the system clock, carried
/// between the two clock wrappers below.
#[verifier::external_type_specification]
#[verifier::external_body]
pub struct ExSystemTime(std::time::SystemTime);

/// `SystemTime::now`.  Nothing is stated of the result: it is the time of
/// the system clock at the call.
#[verifier::external_body]
fn system_time_now() -> std::time::SystemTime {
    std::time::SystemTime::now()
}

/// `SystemTime::duration_since(UNIX_EPOCH)` in whole seconds (`as_secs`),
/// `None` where std reports the time as earlier than the epoch.  Nothing is
/// stated of the value: a `SystemTime` is an opaque moment with no text or
/// number of its own here, so no clause can relate the seconds to it.
#[verifier::external_body]
fn seconds_since_epoch(t: &std::time::SystemTime) -> Option<u64> {
    t.duration_since(std::time::UNIX_EPOCH).ok().map(|d| d.as_secs())
}

/// The import date of a moment `secs` seconds after the Unix epoch, in the
/// simplified calendar of the application: years of 365 days from 1970,
/// months of 30 days (so the month runs from 1 to 13 and the day from 1 to
/// 30), written as `{:04}-{:02}-{:02}`.
pub open spec fn import_date_text(secs: nat) -> Seq<char> {
    let days = secs / 86400;
    let year = 1970 + days / 365;
    let rest = days % 365;
    zero_pad(decimal(year), 4) + "-"@ + zero_pad(decimal(rest / 30 + 1), 2) + "-"@ + zero_pad(
        decimal(rest % 30 + 1),
        2,
    )
}

/// Formats the import date of the moment `secs` seconds after the epoch.
pub fn import_date(secs: u64) -> (d: String)
    ensures
        d@ == import_date_text(secs as nat),
{
    let days = secs / 86400;
    let year = 1970 + days / 365;
    let rest = days % 365;
    let mut v = padded_decimal(year, 4);
    v.push('-');
    let month = padded_decimal(rest / 30 + 1, 2);
    append_chars(&mut v, &month);
    v.push('-');
    let day = padded_decimal(rest % 30 + 1, 2);
    append_chars(&mut v, &day);
    proof {
        reveal_strlit("-");
        assert(v@ == import_date_text(secs as nat));
    }
    string_of(&v)
}

/// The import date for a reading of the clock: seconds since the epoch, or
/// `None` for a clock before the epoch, which counts as the epoch itself.
pub open spec fn clock_date_text(secs: Option<u64>) -> Seq<char> {
    import_date_text(
        match secs {
            Some(s) => s as nat,
            None => 0,
        },
    )
}

/// Formats the import date for a reading of the clock (`None`: before the
/// epoch, counted as 0 seconds).
pub fn import_date_from_clock(secs: Option<u64>) -> (d: String)
    ensures
        d@ == clock_date_text(secs),
{
    let s = match secs {
        Some(s) => s,
        None => 0,
    };
    import_date(s)
}

/// Today's import date from the system clock.
pub fn chrono_now() -> (d: String)
    ensures
        exists|secs: Option<u64>| #[trigger] clock_date_text(secs) == d@,
{
    let now = system_time_now();
    let secs = seconds_since_epoch(&now);
    let d = import_date_from_clock(secs);
    assert(clock_date_text(secs) == d@);
    d
}

impl VpnProfile {
    /// A newly imported profile dated `secs` seconds after the epoch, with no
    /// saved password.
    pub fn new_at(name: String, config_path: String, username: Option<String>, secs: u64) -> (p:
        Self)
        ensures
            p.name == name,
            p.config_path == config_path,
            p.username == username,
            p.password is None,
            p.imported_at@ == import_date_text(secs as nat),
    {
        VpnProfile { name, config_path, imported_at: import_date(secs), username, password: None }
    }

    /// A newly imported profile dated today, with no saved password.
    pub fn new(name: String, config_path: String, username: Option<String>) -> (p: Self)
        ensures
            p.name == name,
            p.config_path == config_path,
            p.username == username,
            p.password is None,
            exists|secs: Option<u64>| #[trigger] clock_date_text(secs) == p.imported_at@,
    {
        let imported_at = chrono_now();
        VpnProfile { name, config_path, imported_at, username, password: None }
    }
}

} // verus!
