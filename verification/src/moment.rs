//! Points of a monotonic clock.

use vstd::prelude::*;

verus! {

/// A point of a monotonic clock, in nanoseconds from an origin that the caller fixes.
#[derive(Clone, Copy, Debug, PartialEq, Eq, Structural)]
pub struct Moment {
    pub nanos: i64,
}

/// The nanoseconds from `since` to `now`; zero where `now` is the earlier one.
pub open spec fn elapsed(since: Moment, now: Moment) -> int {
    if now.nanos >= since.nanos {
        now.nanos - since.nanos
    } else {
        0
    }
}

impl Moment {
    /// The moment `nanos` after the origin.
    pub fn new(nanos: i64) -> (moment: Moment)
        ensures
            moment.nanos == nanos,
    {
        Moment { nanos }
    }

    /// How long ago `self` was, seen from `now`.
    pub fn elapsed_at(self, now: Moment) -> (nanos: u64)
        ensures
            nanos == elapsed(self, now),
    {
        if now.nanos >= self.nanos {
            (now.nanos as i128 - self.nanos as i128) as u64
        } else {
            0
        }
    }
}

} // verus!
