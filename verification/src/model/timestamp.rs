use vstd::prelude::*;

verus! {

/// The earliest second, counted from the Unix epoch, that has a calendar date.
pub const MIN_TIMESTAMP: i64 = -8_334_601_228_800;

/// The latest second, counted from the Unix epoch, that has a calendar date.
pub const MAX_TIMESTAMP: i64 = 8_210_266_876_799;

/// Nanoseconds in one second.
pub const NANOS_PER_SECOND: u32 = 1_000_000_000;

/// Seconds in one minute.
pub const SECONDS_PER_MINUTE: i64 = 60;

/// Seconds in one day.
pub const SECONDS_PER_DAY: i64 = 86_400;

/// The longest span, in seconds, that a time-to-live may cover.
pub const MAX_SPAN_SECONDS: i64 = 9_223_372_036_854_775;

/// Holds when the second `secs` has a calendar date.
pub open spec fn representable(secs: i64) -> bool {
    MIN_TIMESTAMP <= secs <= MAX_TIMESTAMP
}

/// Whether the second `secs` has a calendar date: whether it lies between
/// the first second of the year -262143 and the last second of the year
/// 262142.
pub fn has_calendar_date(secs: i64) -> (ok: bool)
    ensures
        ok == representable(secs),
{
    MIN_TIMESTAMP <= secs && secs <= MAX_TIMESTAMP
}

/// An instant in UTC: whole seconds since the Unix epoch and the nanoseconds
/// past that second.
#[derive(Clone, Copy, PartialEq, Eq, Debug, Structural)]
pub struct Timestamp {
    pub secs: i64,
    pub nanos: u32,
}

impl Timestamp {
    /// An instant that a clock can show: a second with a calendar date and
    /// less than a second of nanoseconds.
    pub open spec fn wf(&self) -> bool {
        &&& representable(self.secs)
        &&& self.nanos < NANOS_PER_SECOND
    }

    /// Strictly earlier: by the seconds, then by the nanoseconds.
    pub open spec fn earlier_than(&self, other: &Timestamp) -> bool {
        self.secs < other.secs || (self.secs == other.secs && self.nanos < other.nanos)
    }

    /// The start of the second `secs`.
    pub fn from_secs(secs: i64) -> (t: Timestamp)
        ensures
            t == (Timestamp { secs, nanos: 0 }),
    {
        Timestamp { secs, nanos: 0 }
    }

    /// Whether this instant is strictly earlier than `other`.
    pub fn is_before(&self, other: &Timestamp) -> (b: bool)
        ensures
            b == self.earlier_than(other),
    {
        self.secs < other.secs || (self.secs == other.secs && self.nanos < other.nanos)
    }

    /// Whether this instant is strictly later than `other`.
    pub fn is_after(&self, other: &Timestamp) -> (b: bool)
        ensures
            b == other.earlier_than(self),
    {
        other.is_before(self)
    }

    /// This instant moved by `seconds`, where the result still fits.
    pub fn plus_seconds(&self, seconds: i64) -> (t: Timestamp)
        requires
            i64::MIN <= self.secs + seconds <= i64::MAX,
        ensures
            t.secs == self.secs + seconds,
            t.nanos == self.nanos,
    {
        Timestamp { secs: self.secs + seconds, nanos: self.nanos }
    }
}

} // verus!
