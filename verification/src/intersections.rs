//! A container for the two nearest parametric hits on a single object.
//!
//! The two slots start at the largest scalar, which stands in for "no hit";
//! pushing keeps the two smallest values pushed so far in order.

use vstd::prelude::*;
use crate::fx::Fx;

verus! {

/// Up to two parametric distances, smallest first, with an iteration cursor.
#[derive(Copy, Clone, Debug, PartialEq, Eq, Structural)]
pub struct Intersections {
    pub t0: Fx,
    pub t1: Fx,
    pub iterator: usize,
}

/// A fresh, empty container.
pub open spec fn spec_intersections_new() -> Intersections {
    Intersections { t0: Fx { raw: i64::MAX }, t1: Fx { raw: i64::MAX }, iterator: 0 }
}

/// What pushing `t` leaves in the two slots: the two smallest values seen.
pub open spec fn spec_push(s: Intersections, t: Fx) -> Intersections {
    if t.raw < s.t0.raw {
        Intersections { t0: t, t1: s.t0, iterator: s.iterator }
    } else if t.raw < s.t1.raw {
        Intersections { t0: s.t0, t1: t, iterator: s.iterator }
    } else {
        s
    }
}

/// The slots are in ascending order: the smaller distance sits first.
pub open spec fn spec_ordered(s: Intersections) -> bool {
    s.t0.raw <= s.t1.raw
}

/// How many slots hold a value below the "no hit" sentinel.
pub open spec fn spec_len(s: Intersections) -> int {
    if s.t1.raw < i64::MAX {
        2
    } else if s.t0.raw < i64::MAX {
        1
    } else {
        0
    }
}

impl Intersections {
    /// Constructs an empty container.
    pub fn new() -> (r: Intersections)
        ensures
            r == spec_intersections_new(),
    {
        Intersections { t0: Fx { raw: i64::MAX }, t1: Fx { raw: i64::MAX }, iterator: 0 }
    }

    /// How many hits the container holds.
    pub fn len(&self) -> (r: usize)
        ensures
            r as int == spec_len(*self),
    {
        if self.t1.raw < i64::MAX {
            2
        } else if self.t0.raw < i64::MAX {
            1
        } else {
            0
        }
    }

    /// Records a parametric distance, keeping the two smallest.
    pub fn push(&mut self, t: Fx)
        ensures
            *final(self) == spec_push(*old(self), t),
    {
        if t.raw < self.t0.raw {
            self.t1 = self.t0;
            self.t0 = t;
        } else if t.raw < self.t1.raw {
            self.t1 = t;
        }
    }

    /// Steps the cursor over the recorded hits, smallest first.
    pub fn next(&mut self) -> (r: Option<Fx>)
        ensures
            old(self).iterator == 0 && old(self).t0.raw < i64::MAX ==> r == Some(old(self).t0)
                && *final(self) == (Intersections { iterator: 1, ..*old(self) }),
            old(self).iterator == 1 && old(self).t1.raw < i64::MAX ==> r == Some(old(self).t1)
                && *final(self) == (Intersections { iterator: 2, ..*old(self) }),
            !(old(self).iterator == 0 && old(self).t0.raw < i64::MAX) && !(old(self).iterator == 1
                && old(self).t1.raw < i64::MAX) ==> r == None::<Fx> && *final(self) == *old(self),
    {
        if self.iterator == 0 && self.t0.raw < i64::MAX {
            self.iterator = 1;
            Some(self.t0)
        } else if self.iterator == 1 && self.t1.raw < i64::MAX {
            self.iterator = 2;
            Some(self.t1)
        } else {
            None
        }
    }
}

/// Pushing keeps the slots ordered: whenever the smaller slot is at or
/// below the larger one, it stays so after any push, and the first slot
/// never grows.
pub proof fn lemma_push_keeps_order(s: Intersections, t: Fx)
    requires
        spec_ordered(s),
    ensures
        spec_ordered(spec_push(s, t)),
        spec_push(s, t).t0.raw <= s.t0.raw,
{
}

} // verus!
