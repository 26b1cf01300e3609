//! Per-session context: sequence counter and timestamp helper.
//!
//! Every block of a session takes its sequence number from the one context of
//! the session, so that blocks from the proxy and from the hooks get unique
//! numbers.
use vstd::prelude::*;
use vstd::string::*;

verus! {

/// A reading of the system clock.
#[verifier::external_type_specification]
#[verifier::external_body]
pub struct ExSystemTime(std::time::SystemTime);

/// The failure to measure a span from a later to an earlier reading.
#[verifier::external_type_specification]
#[verifier::external_body]
pub struct ExSystemTimeError(std::time::SystemTimeError);

/// `SystemTime::now`: some reading of the system clock. Which one rests on
/// the machine.
pub assume_specification[ std::time::SystemTime::now ]() -> (r: std::time::SystemTime)
;

/// The span from the Unix epoch to a reading of the clock; none where the
/// reading lies before the epoch.
pub uninterp spec fn span_since_epoch(reading: std::time::SystemTime) -> Option<
    std::time::Duration,
>;

/// The whole milliseconds of a span.
pub uninterp spec fn whole_millis(span: std::time::Duration) -> u128;

/// `SystemTime::duration_since` from `UNIX_EPOCH`: the span from the epoch to
/// the reading, or an error where the reading lies before the epoch.
/// `span_since_epoch` names it.
#[verifier::external_body]
fn since_epoch(reading: std::time::SystemTime) -> (r: Result<
    std::time::Duration,
    std::time::SystemTimeError,
>)
    ensures
        match r {
            Ok(span) => span_since_epoch(reading) == Some(span),
            Err(_) => span_since_epoch(reading) is None,
        },
{
    reading.duration_since(std::time::UNIX_EPOCH)
}

/// `Duration::as_millis`: the whole milliseconds of the span, as `whole_millis`
/// names them.
pub assume_specification[ std::time::Duration::as_millis ](span: &std::time::Duration) -> (r: u128)
    ensures
        r == whole_millis(*span),
;

/// The Unix epoch milliseconds of a reading of the clock, cut to 64 bits; zero
/// where the reading lies before the epoch.
pub open spec fn reading_ms(reading: std::time::SystemTime) -> i64 {
    match span_since_epoch(reading) {
        Some(span) => whole_millis(span) as i64,
        None => 0,
    }
}

/// Whether `timestamp` is the time of some reading of the clock.
pub open spec fn clock_time(timestamp: i64) -> bool {
    exists|reading: std::time::SystemTime| timestamp == #[trigger] reading_ms(reading)
}

/// The sequence number `steps` after `start`; the counter wraps at `u32::MAX`.
pub open spec fn sequence_after(start: u32, steps: nat) -> u32 {
    ((start + steps) % 0x1_0000_0000) as u32
}

/// Unix epoch milliseconds from the milliseconds since the epoch, cut to 64
/// bits; zero where the clock stands before the epoch.
pub fn epoch_ms(elapsed: Option<u128>) -> (r: i64)
    ensures
        match elapsed {
            Some(millis) => r == millis as i64,
            None => r == 0,
        },
{
    match elapsed {
        Some(millis) => millis as i64,
        None => 0,
    }
}

/// Shared per-session state.
pub struct SessionContext {
    pub session_id: String,
    pub harness_type: String,
    seq: u32,
}

/// What a [`SessionContext`] says.
pub struct ContextView {
    pub session_id: Seq<char>,
    pub harness_type: Seq<char>,
    /// The sequence number that comes next.
    pub upcoming: u32,
}

impl ContextView {
    /// The context after `steps` more sequence numbers.
    pub open spec fn advanced(self, steps: nat) -> ContextView {
        ContextView { upcoming: sequence_after(self.upcoming, steps), ..self }
    }
}

impl View for SessionContext {
    type V = ContextView;

    closed spec fn view(&self) -> ContextView {
        ContextView {
            session_id: self.session_id@,
            harness_type: self.harness_type@,
            upcoming: self.seq,
        }
    }
}

impl SessionContext {
    pub fn new(session_id: &str, harness_type: &str) -> (r: SessionContext)
        ensures
            r@ == (ContextView {
                session_id: session_id@,
                harness_type: harness_type@,
                upcoming: 0,
            }),
    {
        SessionContext {
            session_id: session_id.to_string(),
            harness_type: harness_type.to_string(),
            seq: 0,
        }
    }

    /// The session that the context belongs to.
    pub fn session(&self) -> (r: &str)
        ensures
            r@ == self@.session_id,
    {
        self.session_id.as_str()
    }

    /// The harness that the session runs.
    pub fn harness(&self) -> (r: &str)
        ensures
            r@ == self@.harness_type,
    {
        self.harness_type.as_str()
    }

    /// Allocate the next sequence number for this session.
    pub fn next_seq(&mut self) -> (r: u32)
        ensures
            r == old(self)@.upcoming,
            final(self)@ == old(self)@.advanced(1),
    {
        let current: u32 = self.seq;
        self.seq = current.wrapping_add(1);
        current
    }

    /// Current Unix epoch milliseconds: those of a reading of the clock, as
    /// [`epoch_ms`] gives them. Which reading it is rests on the machine.
    pub fn now_ms(&self) -> (r: i64)
        ensures
            clock_time(r),
    {
        let reading = std::time::SystemTime::now();
        let elapsed: Option<u128> = match since_epoch(reading) {
            Ok(span) => Some(span.as_millis()),
            Err(_) => None,
        };
        let r: i64 = epoch_ms(elapsed);
        assert(r == reading_ms(reading));
        r
    }
}

/// Sequence numbers are unique: of the numbers that a counter hands out, two
/// that are less than 2^32 steps apart differ.
pub proof fn law_sequence_numbers_unique(start: u32, i: nat, j: nat)
    requires
        i < j,
        j - i < 0x1_0000_0000,
    ensures
        sequence_after(start, i) != sequence_after(start, j),
{
}

/// Sequence numbers ascend until the counter wraps: a later number is greater
/// while the counter has not passed `u32::MAX`.
pub proof fn law_sequence_numbers_ascend(start: u32, i: nat, j: nat)
    requires
        i < j,
        start + j <= u32::MAX,
    ensures
        sequence_after(start, i) < sequence_after(start, j),
{
}

/// Taking `m` numbers and then `n` more takes `m + n` numbers.
pub proof fn law_sequence_steps_add(start: u32, m: nat, n: nat)
    ensures
        sequence_after(sequence_after(start, m), n) == sequence_after(start, m + n),
{
}

}
