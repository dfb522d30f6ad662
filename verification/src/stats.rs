//! Traffic statistics shown for a connected profile: counters, the window
//! of speed samples behind the graph, and the connection duration text.

use vstd::prelude::*;
use crate::text::{append_chars, decimal, padded_decimal, string_of, zero_pad};

verus! {

/// Number of speed samples the graph keeps.
pub const MAX_SAMPLES: usize = 30;

/// Milliseconds between two readings of the traffic counters.
pub const REFRESH_MS: u64 = 2000;

/// The samples kept after adding one: the oldest is dropped once there are
/// more than `MAX_SAMPLES`.
pub open spec fn keep_window<S>(s: Seq<S>) -> Seq<S> {
    if s.len() > MAX_SAMPLES {
        s.drop_first()
    } else {
        s
    }
}

/// The window kept after adding `samples` one by one to an empty one.
pub open spec fn window_after<S>(samples: Seq<S>) -> Seq<S>
    decreases samples.len(),
{
    if samples.len() == 0 {
        Seq::<S>::empty()
    } else {
        keep_window(window_after(samples.drop_last()).push(samples.last()))
    }
}

/// Counters of the previous reading and the speed samples of the graph.
pub struct StatsState<S> {
    pub last_bytes_in: u64,
    pub last_bytes_out: u64,
    pub download_speeds: Vec<S>,
    pub upload_speeds: Vec<S>,
}

impl<S> StatsState<S> {
    /// Both sample windows have the same length, at most `MAX_SAMPLES`.
    pub open spec fn wf(self) -> bool {
        self.download_speeds@.len() == self.upload_speeds@.len() <= MAX_SAMPLES
    }

    /// The state before the first reading.
    pub fn new() -> (s: Self)
        ensures
            s.last_bytes_in == 0,
            s.last_bytes_out == 0,
            s.download_speeds@.len() == 0,
            s.upload_speeds@.len() == 0,
            s.wf(),
    {
        StatsState {
            last_bytes_in: 0,
            last_bytes_out: 0,
            download_speeds: Vec::new(),
            upload_speeds: Vec::new(),
        }
    }

    /// Records a reading of the counters.  Gives the bytes received and sent
    /// since the previous reading (never negative), or `None` while no
    /// reading with received bytes was recorded before.
    pub fn record_counters(&mut self, bytes_in: u64, bytes_out: u64) -> (d: Option<(u64, u64)>)
        ensures
            d is Some <==> old(self).last_bytes_in > 0,
            d matches Some((a, b)) ==> a == (if bytes_in >= old(self).last_bytes_in {
                bytes_in - old(self).last_bytes_in
            } else {
                0
            }) && b == (if bytes_out >= old(self).last_bytes_out {
                bytes_out - old(self).last_bytes_out
            } else {
                0
            }),
            final(self).last_bytes_in == bytes_in,
            final(self).last_bytes_out == bytes_out,
            final(self).download_speeds == old(self).download_speeds,
            final(self).upload_speeds == old(self).upload_speeds,
    {
        let d = if self.last_bytes_in > 0 {
            Some(
                (
                    bytes_in.saturating_sub(self.last_bytes_in),
                    bytes_out.saturating_sub(self.last_bytes_out),
                ),
            )
        } else {
            None
        };
        self.last_bytes_in = bytes_in;
        self.last_bytes_out = bytes_out;
        d
    }

    /// Adds a download and an upload speed sample, dropping the oldest pair
    /// beyond `MAX_SAMPLES`.
    pub fn push_speeds(&mut self, download: S, upload: S)
        requires
            old(self).wf(),
        ensures
            final(self).wf(),
            final(self).download_speeds@ == keep_window(old(self).download_speeds@.push(download)),
            final(self).upload_speeds@ == keep_window(old(self).upload_speeds@.push(upload)),
            final(self).last_bytes_in == old(self).last_bytes_in,
            final(self).last_bytes_out == old(self).last_bytes_out,
    {
        self.download_speeds.push(download);
        self.upload_speeds.push(upload);
        if self.download_speeds.len() > MAX_SAMPLES {
            let _ = self.download_speeds.remove(0);
            let _ = self.upload_speeds.remove(0);
        }
    }
}

impl<S> Default for StatsState<S> {
    /// The state before the first reading.
    fn default() -> (s: Self)
        ensures
            s.last_bytes_in == 0,
            s.last_bytes_out == 0,
            s.download_speeds@.len() == 0,
            s.upload_speeds@.len() == 0,
    {
        StatsState::new()
    }
}

/// Whether the periodic reading of the counters goes on: only while the
/// statistics are shown and their graph still exists.
pub fn stats_timer_continues(shown: bool, graph_alive: bool) -> (go_on: bool)
    ensures
        go_on == (shown && graph_alive),
{
    shown && graph_alive
}

/// Law: the graph always shows the latest `MAX_SAMPLES` samples (all of
/// them while there are fewer), in the order they were taken.
pub proof fn lemma_window_keeps_latest<S>(samples: Seq<S>)
    ensures
        window_after(samples) == samples.skip(
            if samples.len() > MAX_SAMPLES {
                samples.len() - MAX_SAMPLES
            } else {
                0
            },
        ),
    decreases samples.len(),
{
    if samples.len() > 0 {
        let prev = samples.drop_last();
        lemma_window_keeps_latest(prev);
        let start = if prev.len() > MAX_SAMPLES {
            prev.len() - MAX_SAMPLES
        } else {
            0
        };
        assert(prev.skip(start).push(samples.last()) == samples.skip(start));
        if samples.len() > MAX_SAMPLES {
            assert(samples.skip(start).drop_first() == samples.skip(samples.len() - MAX_SAMPLES));
        }
    } else {
        assert(samples.skip(0) == samples);
    }
}

/// The connection duration text: `HHh MMm SSs` from one hour on, `MMm SSs`
/// below, each number zero padded to two digits.
pub open spec fn duration_text(secs: nat) -> Seq<char> {
    let h = secs / 3600;
    let m = secs % 3600 / 60;
    let s = secs % 60;
    if h > 0 {
        zero_pad(decimal(h), 2) + "h "@ + zero_pad(decimal(m), 2) + "m "@ + zero_pad(decimal(s), 2)
            + "s"@
    } else {
        zero_pad(decimal(m), 2) + "m "@ + zero_pad(decimal(s), 2) + "s"@
    }
}

/// `t` is a decimal number of exactly two digits with value `n`.
pub open spec fn two_digits(t: Seq<char>, n: nat) -> bool {
    t.len() == 2 && crate::text::all_digits(t) && crate::text::digits_value(t) == n
}

/// Law: the duration text ends with two-digit minutes, `m `, two-digit
/// seconds and `s`; below one hour that is all of it (7 characters), from
/// one hour on it starts with the hours (at least two digits) and `h `.
/// Read back, hours, minutes and seconds give `secs` again.
pub proof fn lemma_duration_text_reads_back(secs: nat)
    ensures
        ({
            let t = duration_text(secs);
            let n = t.len() as int;
            &&& n >= 7
            &&& two_digits(t.subrange(n - 7, n - 5), secs % 3600 / 60)
            &&& t[n - 5] == 'm' && t[n - 4] == ' '
            &&& two_digits(t.subrange(n - 3, n - 1), secs % 60)
            &&& t[n - 1] == 's'
            &&& secs < 3600 ==> n == 7
            &&& secs >= 3600 ==> {
                &&& n >= 11
                &&& t[n - 9] == 'h' && t[n - 8] == ' '
                &&& crate::text::all_digits(t.subrange(0, n - 9))
                &&& crate::text::digits_value(t.subrange(0, n - 9)) == secs / 3600
            }
            &&& (secs / 3600) * 3600 + (secs % 3600 / 60) * 60 + secs % 60 == secs
        }),
{
    reveal_strlit("h ");
    reveal_strlit("m ");
    reveal_strlit("s");
    let h = secs / 3600;
    let m = secs % 3600 / 60;
    let sec = secs % 60;
    crate::text::lemma_zero_pad_reads_back(h, 2);
    crate::text::lemma_zero_pad_reads_back(m, 2);
    crate::text::lemma_zero_pad_reads_back(sec, 2);
    let hp = zero_pad(decimal(h), 2);
    let mp = zero_pad(decimal(m), 2);
    let sp = zero_pad(decimal(sec), 2);
    assert(m < 60);
    assert(sec < 60);
    assert(mp.len() == 2);
    assert(sp.len() == 2);
    let tail = mp + "m "@ + sp + "s"@;
    assert(tail.len() == 7);
    let t = duration_text(secs);
    let n = t.len() as int;
    if h > 0 {
        assert(t == hp + "h "@ + tail);
        assert(t.subrange(0, n - 9) == hp);
        assert(t.subrange(n - 7, n - 5) == mp);
        assert(t.subrange(n - 3, n - 1) == sp);
    } else {
        assert(t == tail);
        assert(t.subrange(n - 7, n - 5) == mp);
        assert(t.subrange(n - 3, n - 1) == sp);
    }
    assert(h * 3600 + m * 60 + sec == secs) by (nonlinear_arith)
        requires
            h == secs / 3600,
            m == secs % 3600 / 60,
            sec == secs % 60,
    ;
}

/// Formats how long a profile has been connected.
pub fn format_duration(secs: u64) -> (t: String)
    ensures
        t@ == duration_text(secs as nat),
{
    let h = secs / 3600;
    let m = secs % 3600 / 60;
    let s = secs % 60;
    let mut v: Vec<char> = Vec::new();
    if h > 0 {
        let hv = padded_decimal(h, 2);
        append_chars(&mut v, &hv);
        v.push('h');
        v.push(' ');
    }
    let mv = padded_decimal(m, 2);
    append_chars(&mut v, &mv);
    v.push('m');
    v.push(' ');
    let sv = padded_decimal(s, 2);
    append_chars(&mut v, &sv);
    v.push('s');
    proof {
        reveal_strlit("h ");
        reveal_strlit("m ");
        reveal_strlit("s");
        assert(v@ == duration_text(secs as nat));
    }
    string_of(&v)
}

} // verus!
