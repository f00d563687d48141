use vstd::prelude::*;

verus! {

/// Seconds in one minute.
pub const SECS_PER_MINUTE: i64 = 60;

/// Seconds in one day.
pub const SECS_PER_DAY: i64 = 86_400;

/// The longest offset that the scheduler ever adds to an instant: one year of days.
pub const MAX_OFFSET_SECS: i64 = 365 * 86_400;

/// A point in time, as whole seconds since the Unix epoch plus a sub-second
/// part in nanoseconds. Instants are ordered by seconds first, then by the
/// sub-second part.
#[derive(Clone, Copy, Debug, PartialEq, Eq, Structural)]
pub struct Timestamp {
    pub secs: i64,
    pub nanos: u32,
}

impl Timestamp {
    /// `self` is at or before `other`.
    pub open spec fn le_spec(self, other: Timestamp) -> bool {
        self.secs < other.secs || (self.secs == other.secs && self.nanos <= other.nanos)
    }

    /// Far enough from the end of the representable range that any schedule
    /// offset can be added to it.
    pub open spec fn schedulable(self) -> bool {
        self.secs <= i64::MAX - MAX_OFFSET_SECS
    }

    /// The instant `delta` seconds later (meaningful when it fits in `i64`).
    pub open spec fn plus_spec(self, delta: int) -> Timestamp {
        Timestamp { secs: (self.secs + delta) as i64, nanos: self.nanos }
    }

    pub fn new(secs: i64, nanos: u32) -> (r: Timestamp)
        ensures
            r.secs == secs,
            r.nanos == nanos,
    {
        Timestamp { secs, nanos }
    }

    /// Whether any schedule offset can be added to `self`.
    pub fn is_schedulable(&self) -> (r: bool)
        ensures
            r == self.schedulable(),
    {
        self.secs <= i64::MAX - MAX_OFFSET_SECS
    }

    /// Whether `self` is at or before `other`.
    pub fn is_at_or_before(&self, other: &Timestamp) -> (r: bool)
        ensures
            r == self.le_spec(*other),
    {
        self.secs < other.secs || (self.secs == other.secs && self.nanos <= other.nanos)
    }

    /// The instant `delta` seconds after `self`.
    pub fn plus_secs(&self, delta: i64) -> (r: Timestamp)
        requires
            0 <= delta <= MAX_OFFSET_SECS,
            self.schedulable(),
        ensures
            r == self.plus_spec(delta as int),
            r.secs == self.secs + delta,
    {
        Timestamp { secs: self.secs + delta, nanos: self.nanos }
    }
}

} // verus!
