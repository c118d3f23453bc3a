//! Scheduling rules: the persisted last-run timestamp, how long to wait at
//! startup, the interval text, and what a cycle's outcome does to the
//! persisted state.
//!
//! The persisted state is one decimal Unix timestamp in a well-known file;
//! this module owns its exact text format, both directions.

use vstd::prelude::*;
use vstd::arithmetic::div_mod::lemma_fundamental_div_mod;

verus! {

/// The largest accumulator that can still take one more decimal digit
/// without overflowing a timestamp.
pub const TIMESTAMP_LIMIT: u64 = 1844674407370955161;

/// The ASCII whitespace the persisted file may carry around the digits.
pub open spec fn is_space_char(c: char) -> bool {
    c == ' ' || c == '\t' || c == '\n' || c == '\r'
}

/// A decimal digit.
pub open spec fn is_digit_char(c: char) -> bool {
    48 <= c as u32 <= 57
}

/// The numeric value of a decimal digit.
pub open spec fn digit_val(c: char) -> nat {
    ((c as u32) - 48) as nat
}

/// The digit character for a value below ten.
pub open spec fn digit_char(d: nat) -> char {
    if d == 0 {
        '0'
    } else if d == 1 {
        '1'
    } else if d == 2 {
        '2'
    } else if d == 3 {
        '3'
    } else if d == 4 {
        '4'
    } else if d == 5 {
        '5'
    } else if d == 6 {
        '6'
    } else if d == 7 {
        '7'
    } else if d == 8 {
        '8'
    } else {
        '9'
    }
}

pub open spec fn all_digits(s: Seq<char>) -> bool {
    forall|i: int| 0 <= i < s.len() ==> is_digit_char(#[trigger] s[i])
}

/// The number a digit string denotes.
pub open spec fn dec_value(s: Seq<char>) -> nat
    decreases s.len(),
{
    if s.len() == 0 {
        0
    } else {
        dec_value(s.drop_last()) * 10 + digit_val(s.last())
    }
}

/// The canonical digit string of a number, without sign or leading zeros.
pub open spec fn dec_str(n: nat) -> Seq<char>
    decreases n,
{
    if n < 10 {
        seq![digit_char(n)]
    } else {
        dec_str(n / 10).push(digit_char(n % 10))
    }
}

pub open spec fn trim_start(s: Seq<char>) -> Seq<char>
    decreases s.len(),
{
    if s.len() > 0 && is_space_char(s.first()) {
        trim_start(s.drop_first())
    } else {
        s
    }
}

pub open spec fn trim_end(s: Seq<char>) -> Seq<char>
    decreases s.len(),
{
    if s.len() > 0 && is_space_char(s.last()) {
        trim_end(s.drop_last())
    } else {
        s
    }
}

/// The text with ASCII whitespace removed from both ends.
pub open spec fn trimmed(s: Seq<char>) -> Seq<char> {
    trim_end(trim_start(s))
}

/// What the persisted file's text denotes: the timestamp, if the trimmed
/// text is one decimal number that fits; otherwise nothing.
pub open spec fn parsed_timestamp(s: Seq<char>) -> Option<u64> {
    let t = trimmed(s);
    if t.len() > 0 && all_digits(t) && dec_value(t) <= u64::MAX {
        Some(dec_value(t) as u64)
    } else {
        None
    }
}

/// A longer digit string never denotes a smaller number: the value of a
/// prefix bounds the value of the whole.
proof fn lemma_dec_value_prefix_le(s: Seq<char>, k: int)
    requires
        0 <= k <= s.len(),
    ensures
        dec_value(s.take(k)) <= dec_value(s),
    decreases s.len() - k,
{
    if k < s.len() {
        assert(s.take(k + 1).drop_last() =~= s.take(k));
        assert(dec_value(s.take(k)) * 10 + digit_val(s.take(k + 1).last()) >= dec_value(
            s.take(k),
        )) by (nonlinear_arith);
        lemma_dec_value_prefix_le(s, k + 1);
        assert(s.take(s.len() as int) =~= s);
    } else {
        assert(s.take(k) =~= s);
    }
}

/// Read the persisted timestamp out of the file's text: trim ASCII
/// whitespace, then parse the decimal number, rejecting anything malformed
/// or too large for a timestamp.
pub fn parse_timestamp(s: &str) -> (r: Option<u64>)
    ensures
        r == parsed_timestamp(s@),
{
    let n = s.unicode_len();
    let mut lo: usize = 0;
    proof {
        assert(s@.skip(0) =~= s@);
    }
    while lo < n
        invariant
            lo <= n,
            n == s@.len(),
            trim_start(s@) == trim_start(s@.skip(lo as int)),
        ensures
            lo <= n,
            n == s@.len(),
            trim_start(s@) == trim_start(s@.skip(lo as int)),
            lo < n ==> !is_space_char(s@[lo as int]),
        decreases n - lo,
    {
        let c = s.get_char(lo);
        if !(c == ' ' || c == '\t' || c == '\n' || c == '\r') {
            break;
        }
        proof {
            assert(s@.skip(lo as int).first() == s@[lo as int]);
            assert(s@.skip(lo as int).drop_first() =~= s@.skip(lo as int + 1));
        }
        lo = lo + 1;
    }
    proof {
        if lo == n {
            assert(s@.skip(lo as int) =~= Seq::<char>::empty());
        } else {
            assert(s@.skip(lo as int).first() == s@[lo as int]);
        }
        assert(trim_start(s@) == s@.skip(lo as int));
        assert(s@.skip(lo as int) =~= s@.subrange(lo as int, n as int));
    }
    let mut hi: usize = n;
    while hi > lo
        invariant
            lo <= hi <= n,
            n == s@.len(),
            trim_start(s@) == s@.skip(lo as int),
            trimmed(s@) == trim_end(s@.subrange(lo as int, hi as int)),
        ensures
            lo <= hi <= n,
            n == s@.len(),
            trimmed(s@) == trim_end(s@.subrange(lo as int, hi as int)),
            hi > lo ==> !is_space_char(s@[hi - 1]),
        decreases hi,
    {
        let c = s.get_char(hi - 1);
        if !(c == ' ' || c == '\t' || c == '\n' || c == '\r') {
            break;
        }
        proof {
            assert(s@.subrange(lo as int, hi as int).last() == s@[hi - 1]);
            assert(s@.subrange(lo as int, hi as int).drop_last() =~= s@.subrange(
                lo as int,
                hi as int - 1,
            ));
        }
        hi = hi - 1;
    }
    proof {
        if hi == lo {
            assert(s@.subrange(lo as int, hi as int) =~= Seq::<char>::empty());
        } else {
            assert(s@.subrange(lo as int, hi as int).last() == s@[hi - 1]);
        }
        assert(trimmed(s@) == s@.subrange(lo as int, hi as int));
    }
    if hi == lo {
        return None;
    }
    let ghost t = s@.subrange(lo as int, hi as int);
    let mut acc: u64 = 0;
    let mut i: usize = lo;
    while i < hi
        invariant
            lo <= i <= hi <= n,
            n == s@.len(),
            t == s@.subrange(lo as int, hi as int),
            trimmed(s@) == t,
            all_digits(t.take(i - lo)),
            acc == dec_value(t.take(i - lo)),
        decreases hi - i,
    {
        let c = s.get_char(i);
        let u = c as u32;
        proof {
            assert(t[i - lo] == s@[i as int]);
            assert(t.take(i - lo + 1).drop_last() =~= t.take(i - lo));
            assert(t.take(i - lo + 1).last() == t[i - lo]);
        }
        if u < 48 || u > 57 {
            // A non-digit inside the trimmed text: malformed.
            return None;
        }
        let d = (u - 48) as u64;
        if acc > TIMESTAMP_LIMIT || (acc == TIMESTAMP_LIMIT && d > 5) {
            // The number does not fit a timestamp.
            proof {
                lemma_dec_value_prefix_le(t, i - lo + 1);
            }
            return None;
        }
        acc = acc * 10 + d;
        i = i + 1;
    }
    proof {
        assert(t.take(hi - lo) =~= t);
    }
    Some(acc)
}

/// Render a timestamp as the decimal text the persisted file holds.
pub fn format_timestamp(ts: u64) -> (r: String)
    ensures
        r@ == dec_str(ts as nat),
    decreases ts,
{
    let d = ts % 10;
    let digit: &str = if d == 0 {
        "0"
    } else if d == 1 {
        "1"
    } else if d == 2 {
        "2"
    } else if d == 3 {
        "3"
    } else if d == 4 {
        "4"
    } else if d == 5 {
        "5"
    } else if d == 6 {
        "6"
    } else if d == 7 {
        "7"
    } else if d == 8 {
        "8"
    } else {
        "9"
    };
    proof {
        reveal_strlit("0");
        reveal_strlit("1");
        reveal_strlit("2");
        reveal_strlit("3");
        reveal_strlit("4");
        reveal_strlit("5");
        reveal_strlit("6");
        reveal_strlit("7");
        reveal_strlit("8");
        reveal_strlit("9");
        assert(digit@ =~= seq![digit_char((ts % 10) as nat)]);
    }
    if ts < 10 {
        proof {
            assert(dec_str(ts as nat) == seq![digit_char(ts as nat)]);
        }
        digit.to_owned()
    } else {
        let prefix = format_timestamp(ts / 10);
        let r = prefix.concat(digit);
        proof {
            assert(r@ =~= dec_str((ts / 10) as nat).push(digit_char((ts % 10) as nat)));
        }
        r
    }
}

/// The canonical digit string contains digits only.
proof fn lemma_dec_str_all_digits(n: nat)
    ensures
        dec_str(n).len() > 0,
        all_digits(dec_str(n)),
    decreases n,
{
    if n >= 10 {
        lemma_dec_str_all_digits(n / 10);
        assert forall|i: int| 0 <= i < dec_str(n).len() implies is_digit_char(
            #[trigger] dec_str(n)[i],
        ) by {
            if i < dec_str(n / 10).len() {
                assert(dec_str(n)[i] == dec_str(n / 10)[i]);
            }
        }
    }
}

/// The canonical digit string reads back as the number it was made from.
proof fn lemma_dec_str_value(n: nat)
    ensures
        dec_value(dec_str(n)) == n,
    decreases n,
{
    if n < 10 {
        assert(dec_str(n).drop_last() =~= Seq::<char>::empty());
        assert(dec_value(Seq::<char>::empty()) == 0);
        assert(dec_str(n).last() == digit_char(n));
        assert(digit_val(digit_char(n)) == n);
    } else {
        lemma_dec_str_value(n / 10);
        let p = dec_str(n / 10).push(digit_char(n % 10));
        assert(dec_str(n) == p);
        assert(p.drop_last() =~= dec_str(n / 10));
        assert(p.last() == digit_char(n % 10));
        assert(n % 10 < 10);
        assert(digit_val(digit_char(n % 10)) == n % 10);
        assert(dec_value(p) == dec_value(dec_str(n / 10)) * 10 + digit_val(p.last()));
        lemma_fundamental_div_mod(n as int, 10);
    }
}

/// The number of whole seconds the interval text denotes, if it is a valid
/// duration, with the backup engine's calendar conventions (a year
/// counted as 365 days, a month as 30); nothing if the text is malformed.
pub uninterp spec fn interval_secs_of(s: Seq<char>) -> Option<u64>;

/// Relies on iso8601::duration and that crate's conversion to a standard
/// library Duration: both compute from the characters of the text alone.
#[verifier::external_body]
fn parse_interval_secs(s: &str) -> (r: Option<u64>)
    ensures
        r == interval_secs_of(s@),
{
    match iso8601::duration(s) {
        Ok(d) => Some(core::time::Duration::from(d).as_secs()),
        Err(_) => None,
    }
}

/// Parse the configured backup interval, as whole seconds.
pub fn parse_iso8601_duration(s: &str) -> (r: Option<u64>)
    ensures
        r == interval_secs_of(s@),
{
    parse_interval_secs(s)
}

/// How long to wait before the first cycle, given the persisted file's
/// text (if the file exists), the current time and the interval: nothing
/// at all when there is no usable last-run timestamp or the backup is
/// overdue, otherwise the part of the interval that has not yet elapsed.
pub open spec fn startup_wait_of(last: Option<Seq<char>>, now: u64, interval: u64) -> u64 {
    match last {
        None => 0,
        Some(s) => match parsed_timestamp(s) {
            None => 0,
            Some(ts) => if ts >= now {
                interval
            } else if now - ts >= interval {
                0
            } else {
                (interval - (now - ts)) as u64
            },
        },
    }
}

/// Decide the wait before the first backup cycle. A missing file, a
/// malformed timestamp, or a timestamp at least one interval in the past
/// all mean the first cycle runs immediately; a fresher timestamp means
/// waiting out the remainder of the interval. A timestamp not in the past
/// waits one full interval.
pub fn startup_wait(last_run_content: Option<&str>, now: u64, interval: u64) -> (r: u64)
    ensures
        r == startup_wait_of(
            (match last_run_content {
                Some(s) => Some(s@),
                None => None,
            }),
            now,
            interval,
        ),
{
    match last_run_content {
        None => 0,
        Some(content) => match parse_timestamp(content) {
            None => 0,
            Some(ts) => {
                if ts >= now {
                    interval
                } else if now - ts >= interval {
                    0
                } else {
                    interval - (now - ts)
                }
            },
        },
    }
}

/// The startup decision: the parsed interval and the initial wait.
#[derive(Debug, Clone, Copy, PartialEq, Eq, Structural)]
pub struct StartupPlan {
    pub interval_secs: u64,
    pub wait_secs: u64,
}

/// Plan the scheduler's startup from the configured interval text and the
/// persisted file's text. No plan is made — and scheduling must not start —
/// exactly when the interval text is not a valid duration.
pub fn plan_startup(interval_text: &str, last_run_content: Option<&str>, now: u64) -> (r: Option<
    StartupPlan,
>)
    ensures
        r is None <==> interval_secs_of(interval_text@) is None,
        r matches Some(p) ==> Some(p.interval_secs) == interval_secs_of(interval_text@)
            && p.wait_secs == startup_wait_of(
            (match last_run_content {
                Some(s) => Some(s@),
                None => None,
            }),
            now,
            p.interval_secs,
        ),
{
    match parse_iso8601_duration(interval_text) {
        None => None,
        Some(interval_secs) => {
            let wait_secs = startup_wait(last_run_content, now, interval_secs);
            Some(StartupPlan { interval_secs, wait_secs })
        },
    }
}

/// The scheduler's persisted state: the Unix timestamp of the last cycle
/// that completed successfully, if any ever has.
#[derive(Debug, Clone, Copy, PartialEq, Eq, Structural)]
pub struct ScheduleState {
    pub last_success: Option<u64>,
}

impl ScheduleState {
    /// The state read at startup: the parsed persisted timestamp, or none.
    pub fn new(last_success: Option<u64>) -> (r: Self)
        ensures
            r.last_success == last_success,
    {
        ScheduleState { last_success }
    }

    /// Record one cycle's outcome. A successful cycle's completion time
    /// becomes the new last-run value and its decimal text must overwrite
    /// the persisted file; a failed cycle changes nothing, so the next
    /// attempt keeps its normal cadence.
    pub fn record_cycle(&mut self, success: bool, completion: u64) -> (w: Option<String>)
        ensures
            success ==> final(self).last_success == Some(completion) && (w matches Some(text)
                && text@ == dec_str(completion as nat)),
            !success ==> *final(self) == *old(self) && w is None,
    {
        if success {
            self.last_success = Some(completion);
            Some(format_timestamp(completion))
        } else {
            None
        }
    }
}

/// Where the scheduler's loop stands. `ShuttingDown` is terminal.
#[derive(Debug, Clone, Copy, PartialEq, Eq, Structural)]
pub enum SchedulerPhase {
    /// Between cycles, waiting for the interval timer (or a signal).
    WaitingForInterval,
    /// A backup cycle is in flight and runs to completion.
    RunningCycle,
    /// A termination signal was received; the loop exits.
    ShuttingDown,
}

/// The scheduler: its loop phase and the persisted last-run state. Shutdown
/// signals are sampled only between cycles, never while one is in flight,
/// so a cycle in progress always completes — and with it, every container
/// restart its coordinator still owes.
#[derive(Debug, Clone, Copy, PartialEq, Eq, Structural)]
pub struct Scheduler {
    pub phase: SchedulerPhase,
    pub state: ScheduleState,
}

impl Scheduler {
    /// Start the loop, between cycles, with the state read at startup.
    pub fn new(state: ScheduleState) -> (r: Self)
        ensures
            r.phase == SchedulerPhase::WaitingForInterval,
            r.state == state,
    {
        Scheduler { phase: SchedulerPhase::WaitingForInterval, state }
    }

    /// The interval timer fired: a backup cycle begins.
    pub fn on_tick(&mut self)
        requires
            old(self).phase == SchedulerPhase::WaitingForInterval,
        ensures
            final(self).phase == SchedulerPhase::RunningCycle,
            final(self).state == old(self).state,
    {
        self.phase = SchedulerPhase::RunningCycle;
    }

    /// The in-flight cycle finished: record its outcome and return to
    /// waiting. Only a successful cycle yields text to persist — its
    /// completion time — and only then does the state move; a failed cycle
    /// leaves both untouched.
    pub fn on_cycle_finished(&mut self, success: bool, completion: u64) -> (w: Option<String>)
        requires
            old(self).phase == SchedulerPhase::RunningCycle,
        ensures
            final(self).phase == SchedulerPhase::WaitingForInterval,
            success ==> final(self).state.last_success == Some(completion) && (w matches Some(
                text,
            ) && text@ == dec_str(completion as nat)),
            !success ==> final(self).state == old(self).state && w is None,
    {
        self.phase = SchedulerPhase::WaitingForInterval;
        self.state.record_cycle(success, completion)
    }

    /// A termination signal arrived at a loop boundary: shut down. That
    /// this takes the waiting phase is the sampling rule — a signal is
    /// never acted on while a cycle is in flight.
    pub fn on_shutdown_signal(&mut self)
        requires
            old(self).phase == SchedulerPhase::WaitingForInterval,
        ensures
            final(self).phase == SchedulerPhase::ShuttingDown,
            final(self).state == old(self).state,
    {
        self.phase = SchedulerPhase::ShuttingDown;
    }

    /// Whether the loop must exit.
    pub fn is_shutting_down(&self) -> (r: bool)
        ensures
            r == (self.phase == SchedulerPhase::ShuttingDown),
    {
        matches!(self.phase, SchedulerPhase::ShuttingDown)
    }
}

/// What a successful cycle persists is exactly what the next startup reads
/// back: the persisted text of a completion time parses to that time, so a
/// restart right after a success waits the full interval rather than
/// running again at once.
pub proof fn lemma_persisted_state_round_trips(ts: u64, interval: u64)
    ensures
        parsed_timestamp(dec_str(ts as nat)) == Some(ts),
        startup_wait_of(Some(dec_str(ts as nat)), ts, interval) == interval,
{
    lemma_persisted_timestamp_round_trip(ts);
}

/// What a cycle persists on success reads back as the very timestamp it
/// completed at: writing and parsing the last-run file round-trips.
pub proof fn lemma_persisted_timestamp_round_trip(ts: u64)
    ensures
        parsed_timestamp(dec_str(ts as nat)) == Some(ts),
{
    lemma_dec_str_all_digits(ts as nat);
    lemma_dec_str_value(ts as nat);
    let t = dec_str(ts as nat);
    assert(is_digit_char(t.first()));
    assert(is_digit_char(t.last()));
    assert(trim_start(t) == t);
    assert(trim_end(t) == t);
}

} // verus!
