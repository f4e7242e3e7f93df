//! Host time: durations and timestamps in nanoseconds.

use vstd::prelude::*;

verus! {

pub const NANOS_PER_SEC: u32 = 1_000_000_000;

/// A span of time: whole seconds and a fraction in nanoseconds, which is
/// always less than a second: that is the invariant of the type.
///
/// Spans are compared and added by their length in nanoseconds,
/// [`Duration::total_nanos`].
#[derive(Clone, Copy, Debug, PartialEq, Eq, Structural, Hash)]
pub struct Duration {
    secs: u64,
    nanos: u32,
}

impl Duration {
    #[verifier::type_invariant]
    spec fn canonical(self) -> bool {
        self.nanos < NANOS_PER_SEC
    }

    /// The whole seconds of the span.
    pub closed spec fn spec_secs(self) -> u64 {
        self.secs
    }

    /// The nanoseconds beyond the whole seconds.
    pub closed spec fn spec_subsec_nanos(self) -> u32 {
        self.nanos
    }

    /// The span built from the given parts, taken as they are.
    pub closed spec fn of(secs: u64, nanos: u32) -> Duration {
        Duration { secs, nanos }
    }

    /// The length of the span in nanoseconds.
    pub open spec fn total_nanos(self) -> nat {
        (self.spec_secs() as nat) * 1_000_000_000 + (self.spec_subsec_nanos() as nat)
    }

    /// The fraction stays below one second.
    pub open spec fn wf(self) -> bool {
        self.spec_subsec_nanos() < NANOS_PER_SEC
    }

    /// A span is its two parts.
    pub broadcast proof fn lemma_parts(self, other: Duration)
        ensures
            #![trigger self.spec_secs(), other.spec_secs()]
            #![trigger self.spec_subsec_nanos(), other.spec_subsec_nanos()]
            (self == other) <==> (self.spec_secs() == other.spec_secs()
                && self.spec_subsec_nanos() == other.spec_subsec_nanos()),
    {
    }

    /// What `of` builds has the parts it was given.
    pub broadcast proof fn lemma_of(secs: u64, nanos: u32)
        ensures
            (#[trigger] Duration::of(secs, nanos)).spec_secs() == secs,
            Duration::of(secs, nanos).spec_subsec_nanos() == nanos,
    {
    }

    /// The span of `secs` seconds and `nanos` nanoseconds. Whole seconds in
    /// `nanos` are carried over, so the sum must fit.
    pub fn new(secs: u64, nanos: u32) -> (d: Duration)
        requires
            secs + nanos / NANOS_PER_SEC <= u64::MAX,
        ensures
            d.wf(),
            d.total_nanos() == secs as nat * 1_000_000_000 + nanos as nat,
            nanos < NANOS_PER_SEC ==> d == Duration::of(secs, nanos),
    {
        let carry: u32 = nanos / NANOS_PER_SEC;
        let rest: u32 = nanos % NANOS_PER_SEC;
        Duration { secs: secs + carry as u64, nanos: rest }
    }

    /// The span of no time at all.
    pub fn zero() -> (d: Duration)
        ensures
            d == Duration::of(0, 0),
            d.wf(),
            d.total_nanos() == 0,
    {
        Duration { secs: 0, nanos: 0 }
    }

    pub fn from_secs(secs: u64) -> (d: Duration)
        ensures
            d == Duration::of(secs, 0),
            d.wf(),
            d.total_nanos() == secs as nat * 1_000_000_000,
    {
        Duration { secs, nanos: 0 }
    }

    pub fn from_millis(millis: u64) -> (d: Duration)
        ensures
            d.wf(),
            d.total_nanos() == millis as nat * 1_000_000,
    {
        let secs: u64 = millis / 1000;
        let rest: u64 = millis % 1000;
        Duration { secs, nanos: (rest * 1_000_000) as u32 }
    }

    pub fn from_nanos(nanos: u64) -> (d: Duration)
        ensures
            d == Duration::of(nanos / 1_000_000_000, (nanos % 1_000_000_000) as u32),
            d.wf(),
            d.total_nanos() == nanos as nat,
    {
        let secs: u64 = nanos / 1_000_000_000;
        let rest: u64 = nanos % 1_000_000_000;
        Duration { secs, nanos: rest as u32 }
    }

    pub fn as_secs(&self) -> (r: u64)
        ensures
            r == self.spec_secs(),
    {
        self.secs
    }

    pub fn subsec_nanos(&self) -> (r: u32)
        ensures
            r == self.spec_subsec_nanos(),
            self.wf(),
    {
        proof {
            use_type_invariant(self);
        }
        self.nanos
    }

    /// The length of the span in nanoseconds.
    pub fn as_nanos(&self) -> (r: u128)
        ensures
            r == self.total_nanos(),
    {
        (self.secs as u128) * 1_000_000_000 + (self.nanos as u128)
    }

    pub fn is_zero(&self) -> (r: bool)
        ensures
            r == (self.total_nanos() == 0),
    {
        self.secs == 0 && self.nanos == 0
    }

    /// Whether this span is strictly shorter than `other`.
    pub fn lt(&self, other: &Duration) -> (r: bool)
        ensures
            r == (self.total_nanos() < other.total_nanos()),
    {
        self.as_nanos() < other.as_nanos()
    }

    /// Whether this span is at most as long as `other`.
    pub fn le(&self, other: &Duration) -> (r: bool)
        ensures
            r == (self.total_nanos() <= other.total_nanos()),
    {
        self.as_nanos() <= other.as_nanos()
    }

    /// Two thirds of the span, rounded down to a whole nanosecond.
    pub fn two_thirds(&self) -> (d: Duration)
        ensures
            d.wf(),
            d.total_nanos() == (2 * self.total_nanos()) / 3,
    {
        let total: u128 = self.as_nanos();
        let part: u128 = (2 * total) / 3;
        let secs: u128 = part / 1_000_000_000;
        let rest: u128 = part % 1_000_000_000;
        Duration { secs: secs as u64, nanos: rest as u32 }
    }
}

/// How a timestamp stands to a deadline.
#[derive(Clone, Copy, Debug, PartialEq, Eq, Structural)]
pub enum Expiry {
    /// The deadline has been reached.
    Expired,
    /// The deadline is still ahead.
    NotExpired,
    /// One of the two timestamps is not set.
    InvalidTimestamp,
}

/// The sum of a timestamp and a span does not fit.
#[derive(Clone, Copy, Debug, PartialEq, Eq, Structural)]
pub enum TimestampOverflowError {
    TimestampOverflow,
}

/// A nanosecond count that cannot stand for a timestamp.
#[derive(Clone, Copy, Debug, PartialEq, Eq, Structural)]
pub enum ParseTimestampError {
    OutOfRange,
}

/// A point in time in nanoseconds since the Unix epoch, or no time at all.
///
/// A count of zero stands for "not set". The count has 64 bits: the latest
/// time that a timestamp holds lies in the year 2554, a sum beyond it is an
/// overflow, and a header with a later time is refused.
#[derive(Clone, Copy, Debug, PartialEq, Eq, Structural, Hash)]
pub struct Timestamp {
    nanos: u64,
}

impl Timestamp {
    /// The nanoseconds since the epoch; zero where the timestamp is not set.
    pub closed spec fn spec_nanos(self) -> u64 {
        self.nanos
    }

    /// The timestamp with the given count.
    pub closed spec fn of(nanos: u64) -> Timestamp {
        Timestamp { nanos }
    }

    /// Whether the timestamp holds a time.
    pub open spec fn is_set(self) -> bool {
        self.spec_nanos() != 0
    }

    /// The span from `from` up to `to`, in its well-formed form.
    pub open spec fn span(to: Timestamp, from: Timestamp) -> Duration {
        Duration::of(
            ((to.spec_nanos() - from.spec_nanos()) / 1_000_000_000) as u64,
            ((to.spec_nanos() - from.spec_nanos()) % 1_000_000_000) as u32,
        )
    }

    /// A timestamp is its count.
    pub broadcast proof fn lemma_parts(self, other: Timestamp)
        ensures
            #![trigger self.spec_nanos(), other.spec_nanos()]
            (self == other) <==> self.spec_nanos() == other.spec_nanos(),
    {
    }

    /// What `of` builds has the count it was given.
    pub broadcast proof fn lemma_of(nanos: u64)
        ensures
            (#[trigger] Timestamp::of(nanos)).spec_nanos() == nanos,
    {
    }

    /// The timestamp that is not set.
    pub fn none() -> (t: Timestamp)
        ensures
            t == Timestamp::of(0),
    {
        Timestamp { nanos: 0 }
    }

    /// The timestamp of the given nanoseconds since the epoch; zero gives the
    /// timestamp that is not set. Every count is accepted.
    pub fn from_nanoseconds(nanoseconds: u64) -> (r: Result<Timestamp, ParseTimestampError>)
        ensures
            r == Ok::<Timestamp, ParseTimestampError>(Timestamp::of(nanoseconds)),
    {
        Ok(Timestamp { nanos: nanoseconds })
    }

    pub fn nanoseconds(&self) -> (r: u64)
        ensures
            r == self.spec_nanos(),
    {
        self.nanos
    }

    /// Whether this timestamp is strictly later than `other`; false where
    /// either is not set.
    pub fn after(&self, other: &Timestamp) -> (r: bool)
        ensures
            r == (self.is_set() && other.is_set() && self.spec_nanos() > other.spec_nanos()),
    {
        self.nanos != 0 && other.nanos != 0 && self.nanos > other.nanos
    }

    /// Whether the deadline `other` has been reached at this time.
    pub fn check_expiry(&self, other: &Timestamp) -> (r: Expiry)
        ensures
            !(self.is_set() && other.is_set()) ==> r == Expiry::InvalidTimestamp,
            self.is_set() && other.is_set() && self.spec_nanos() >= other.spec_nanos() ==> r
                == Expiry::Expired,
            self.is_set() && other.is_set() && self.spec_nanos() < other.spec_nanos() ==> r
                == Expiry::NotExpired,
    {
        if self.nanos == 0 || other.nanos == 0 {
            Expiry::InvalidTimestamp
        } else if self.nanos >= other.nanos {
            Expiry::Expired
        } else {
            Expiry::NotExpired
        }
    }

    /// The span from `other` up to this timestamp, where both are set and
    /// `other` is not the later one.
    pub fn duration_since(&self, other: &Timestamp) -> (r: Option<Duration>)
        ensures
            r.is_some() == (self.is_set() && other.is_set() && self.spec_nanos()
                >= other.spec_nanos()),
            r.is_some() ==> r.unwrap().wf() && r.unwrap().total_nanos() == self.spec_nanos()
                - other.spec_nanos() && r.unwrap() == Timestamp::span(*self, *other),
    {
        if self.nanos == 0 || other.nanos == 0 || self.nanos < other.nanos {
            None
        } else {
            Some(Duration::from_nanos(self.nanos - other.nanos))
        }
    }

    /// This timestamp moved forward by `duration`. A timestamp that is not
    /// set stays so; a sum beyond the largest count is an overflow.
    pub fn add(&self, duration: Duration) -> (r: Result<Timestamp, TimestampOverflowError>)
        ensures
            !self.is_set() ==> r == Ok::<Timestamp, TimestampOverflowError>(*self),
            self.is_set() && self.spec_nanos() + duration.total_nanos() <= u64::MAX ==> r
                == Ok::<Timestamp, TimestampOverflowError>(
                Timestamp::of((self.spec_nanos() + duration.total_nanos()) as u64),
            ),
            self.is_set() && self.spec_nanos() + duration.total_nanos() > u64::MAX ==> r
                == Err::<Timestamp, TimestampOverflowError>(
                TimestampOverflowError::TimestampOverflow,
            ),
    {
        if self.nanos == 0 {
            return Ok(*self);
        }
        let span: u128 = duration.as_nanos();
        let limit: u128 = (u64::MAX - self.nanos) as u128;
        if span > limit {
            return Err(TimestampOverflowError::TimestampOverflow);
        }
        Ok(Timestamp { nanos: self.nanos + span as u64 })
    }
}

} // verus!
