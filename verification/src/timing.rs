//! Instants and the result of one timed execution.

use vstd::prelude::*;

verus! {

/// The earliest second that a timestamp can hold: the first second of the
/// year -262143.
pub const MIN_SECONDS: i64 = -8_334_601_228_800;

/// The latest second that a timestamp can hold: the last second of the year
/// 262142.
pub const MAX_SECONDS: i64 = 8_210_266_876_799;

pub const NANOS_PER_SECOND: u32 = 1_000_000_000;

/// An instant in UTC: whole seconds since the start of 1970, leap seconds not
/// counted, and the nanoseconds into that second.
#[derive(Clone, Copy, Debug, PartialEq, Eq, Structural)]
pub struct Timestamp {
    secs: i64,
    nanos: u32,
}

/// Nanoseconds as whole milliseconds, rounded towards zero.
pub open spec fn whole_millis(nanos: int) -> int {
    if nanos >= 0 {
        nanos / 1_000_000
    } else {
        -((-nanos) / 1_000_000)
    }
}

impl Timestamp {
    #[verifier::type_invariant]
    pub closed spec fn inv(self) -> bool {
        Self::in_range(self.secs, self.nanos)
    }

    /// The seconds and nanoseconds that make a timestamp.
    pub open spec fn in_range(secs: i64, nanos: u32) -> bool {
        MIN_SECONDS <= secs <= MAX_SECONDS && nanos < NANOS_PER_SECOND
    }

    pub closed spec fn secs_spec(self) -> i64 {
        self.secs
    }

    pub closed spec fn nanos_spec(self) -> u32 {
        self.nanos
    }

    /// Nanoseconds since the start of 1970.
    pub open spec fn since_epoch(self) -> int {
        self.secs_spec() * 1_000_000_000 + self.nanos_spec()
    }

    /// `None` where the values are out of range.
    pub fn new(secs: i64, nanos: u32) -> (t: Option<Timestamp>)
        ensures
            t is Some <==> Self::in_range(secs, nanos),
            t matches Some(t) ==> t.secs_spec() == secs && t.nanos_spec() == nanos,
    {
        if MIN_SECONDS <= secs && secs <= MAX_SECONDS && nanos < NANOS_PER_SECOND {
            Some(Timestamp { secs, nanos })
        } else {
            None
        }
    }

    pub fn secs(&self) -> (s: i64)
        ensures
            s == self.secs_spec(),
            Self::in_range(s, self.nanos_spec()),
    {
        proof {
            use_type_invariant(self);
        }
        self.secs
    }

    pub fn nanos(&self) -> (n: u32)
        ensures
            n == self.nanos_spec(),
            Self::in_range(self.secs_spec(), n),
    {
        proof {
            use_type_invariant(self);
        }
        self.nanos
    }

    /// Whether `self` is no later than `other`.
    pub fn not_after(&self, other: &Timestamp) -> (b: bool)
        ensures
            b == (self.since_epoch() <= other.since_epoch()),
    {
        proof {
            use_type_invariant(self);
            use_type_invariant(other);
        }
        self.secs < other.secs || (self.secs == other.secs && self.nanos <= other.nanos)
    }

    /// Whole milliseconds from `self` to `later`, rounded towards zero;
    /// negative where `later` is the earlier of the two.
    pub fn millis_until(&self, later: &Timestamp) -> (ms: i64)
        ensures
            ms == whole_millis(later.since_epoch() - self.since_epoch()),
    {
        proof {
            use_type_invariant(self);
            use_type_invariant(later);
        }
        signed_millis_between(self.secs, self.nanos, later.secs, later.nanos).unwrap()
    }
}

/// Calls chrono's `DateTime::<Utc>::from_timestamp` on each pair of seconds
/// and nanoseconds, subtracts the first instant from the second with
/// `signed_duration_since`, and reads the difference with
/// `TimeDelta::num_milliseconds`.
///
/// Trusted: for seconds within chrono's range and nanoseconds below one
/// second, both instants exist and the result is the difference in
/// nanoseconds as whole milliseconds, rounded towards zero.
#[verifier::external_body]
fn signed_millis_between(from_secs: i64, from_nanos: u32, to_secs: i64, to_nanos: u32) -> (ms:
    Option<i64>)
    requires
        Timestamp::in_range(from_secs, from_nanos),
        Timestamp::in_range(to_secs, to_nanos),
    ensures
        ms == Some(
            whole_millis(
                (to_secs * 1_000_000_000 + to_nanos) - (from_secs * 1_000_000_000 + from_nanos),
            ) as i64,
        ),
{
    let from = chrono::DateTime::from_timestamp(from_secs, from_nanos)?;
    let to = chrono::DateTime::from_timestamp(to_secs, to_nanos)?;
    Some(to.signed_duration_since(from).num_milliseconds())
}

/// The outcome of one execution of a workflow that was seen to finish: when
/// it was triggered, when its completion was detected, and which repeat it
/// was. The detection never precedes the trigger.
#[derive(Clone, Copy, Debug, PartialEq, Eq, Structural)]
pub struct ExecutionResult {
    start_time: Timestamp,
    end_time: Timestamp,
    iter: u32,
}

impl ExecutionResult {
    #[verifier::type_invariant]
    pub closed spec fn inv(self) -> bool {
        self.start_time.since_epoch() <= self.end_time.since_epoch()
    }

    pub closed spec fn start_spec(self) -> Timestamp {
        self.start_time
    }

    pub closed spec fn end_spec(self) -> Timestamp {
        self.end_time
    }

    pub closed spec fn iter_spec(self) -> u32 {
        self.iter
    }

    /// The result made of these three values.
    pub closed spec fn of(start_time: Timestamp, end_time: Timestamp, iter: u32) -> ExecutionResult {
        ExecutionResult { start_time, end_time, iter }
    }

    /// A result holds what it was made of, and nothing else.
    pub proof fn lemma_of(start_time: Timestamp, end_time: Timestamp, iter: u32)
        ensures
            Self::of(start_time, end_time, iter).start_spec() == start_time,
            Self::of(start_time, end_time, iter).end_spec() == end_time,
            Self::of(start_time, end_time, iter).iter_spec() == iter,
    {
    }

    /// The duration that the result stands for, in whole milliseconds.
    pub open spec fn duration_ms_spec(self) -> int {
        whole_millis(self.end_spec().since_epoch() - self.start_spec().since_epoch())
    }

    /// The result of repeat `iter`, or `None` where the detection is earlier
    /// than the trigger, which no execution can have produced.
    pub fn new(start_time: Timestamp, end_time: Timestamp, iter: u32) -> (r: Option<
        ExecutionResult,
    >)
        ensures
            r is Some <==> start_time.since_epoch() <= end_time.since_epoch(),
            r matches Some(res) ==> res == Self::of(start_time, end_time, iter),
            r matches Some(res) ==> res.start_spec() == start_time && res.end_spec() == end_time
                && res.iter_spec() == iter,
    {
        if start_time.not_after(&end_time) {
            Some(ExecutionResult { start_time, end_time, iter })
        } else {
            None
        }
    }

    pub fn start_time(&self) -> (t: Timestamp)
        ensures
            t == self.start_spec(),
    {
        self.start_time
    }

    pub fn end_time(&self) -> (t: Timestamp)
        ensures
            t == self.end_spec(),
    {
        self.end_time
    }

    pub fn iter(&self) -> (i: u32)
        ensures
            i == self.iter_spec(),
    {
        self.iter
    }

    /// Whole milliseconds from trigger to detection; never negative.
    pub fn duration_ms(&self) -> (ms: i64)
        ensures
            ms == self.duration_ms_spec(),
            ms >= 0,
    {
        proof {
            use_type_invariant(self);
        }
        self.start_time.millis_until(&self.end_time)
    }
}

} // verus!
