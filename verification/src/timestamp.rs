//! Instants in time, as the scan compares them.

use vstd::prelude::*;

verus! {

/// A UTC instant: whole seconds since the Unix epoch, and the nanoseconds
/// into that second.
///
/// Instants are ordered by their seconds first and by their nanoseconds
/// second, so a nanosecond count of a thousand million or more, which a
/// calendar uses for a leap second, still sorts inside its own second.
#[derive(Clone, Copy, Debug, PartialEq, Eq, Structural)]
pub struct Timestamp {
    pub secs: i64,
    pub nanos: u32,
}

impl Timestamp {
    /// Whether `self` is no later than `other`.
    pub open spec fn at_or_before(self, other: Timestamp) -> bool {
        self.secs < other.secs || (self.secs == other.secs && self.nanos <= other.nanos)
    }

    /// Whether `self` is strictly later than `other`.
    pub open spec fn after(self, other: Timestamp) -> bool {
        !self.at_or_before(other)
    }

    /// Makes an instant of its two parts.
    pub fn new(secs: i64, nanos: u32) -> (t: Timestamp)
        ensures
            t == (Timestamp { secs, nanos }),
    {
        Timestamp { secs, nanos }
    }

    /// Tells whether `self` is no later than `other`.
    pub fn le(&self, other: &Timestamp) -> (r: bool)
        ensures
            r == self.at_or_before(*other),
    {
        self.secs < other.secs || (self.secs == other.secs && self.nanos <= other.nanos)
    }
}

} // verus!
