//! Instants on the UTC time line, as chrono orders them.
use vstd::prelude::*;

verus! {

/// An instant: whole seconds since the Unix epoch, then the nanoseconds within that
/// second. The nanoseconds run past 999_999_999 only inside a leap second, which
/// still orders before the next second.
#[derive(Clone, Copy, Debug, PartialEq, Eq, Structural)]
pub struct Timestamp {
    pub seconds: i64,
    pub nanos: u32,
}

/// `a` lies strictly after `b`.
pub open spec fn later(a: Timestamp, b: Timestamp) -> bool {
    a.seconds > b.seconds || (a.seconds == b.seconds && a.nanos > b.nanos)
}

impl Timestamp {
    /// The instant `seconds` after the epoch, on a whole second.
    pub fn from_seconds(seconds: i64) -> (r: Timestamp)
        ensures
            r.seconds == seconds,
            r.nanos == 0,
    {
        Timestamp { seconds, nanos: 0 }
    }

    /// Whether this instant lies strictly after `other`.
    pub fn is_after(&self, other: &Timestamp) -> (r: bool)
        ensures
            r == later(*self, *other),
    {
        self.seconds > other.seconds || (self.seconds == other.seconds && self.nanos > other.nanos)
    }
}

} // verus!
