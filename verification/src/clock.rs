//! Points in time and the spans between them, counted in nanoseconds.

use vstd::prelude::*;

verus! {

/// A point in time: so many nanoseconds after an origin that is the same for all.
#[derive(Debug, Clone, Copy, PartialEq, Eq, Structural)]
pub struct Instant {
    pub nanos: u128,
}

impl View for Instant {
    type V = int;

    open spec fn view(&self) -> int {
        self.nanos as int
    }
}

/// The time from one point to another, and none if the other comes first.
pub open spec fn elapsed(from: int, to: int) -> int {
    if to >= from {
        to - from
    } else {
        0
    }
}

/// The time from one point to a later one leads from the one to the other, and the time
/// to an earlier one is none.
pub proof fn law_elapsed(from: int, to: int)
    ensures
        from <= to ==> from + elapsed(from, to) == to,
        to <= from ==> elapsed(from, to) == 0,
{
}

impl Instant {
    /// The nanoseconds that have passed since an earlier point; zero if that point is
    /// later.
    pub fn duration_since(&self, earlier: Instant) -> (nanos: u128)
        ensures
            nanos == elapsed(earlier@, self@),
    {
        if self.nanos >= earlier.nanos {
            self.nanos - earlier.nanos
        } else {
            0
        }
    }
}

} // verus!
