//! Tick ranges and the position of a pool's current tick relative to one.

use vstd::prelude::*;

verus! {

/// Where a pool's current tick lies relative to a position's tick range.
#[derive(Clone, Copy, Debug, PartialEq, Eq, Structural)]
pub enum TickPosition {
    /// The current tick is below the lower boundary: `current < lower`.
    Below,
    /// The current tick is inside the range: `lower <= current < upper`.
    Within,
    /// The current tick is at or above the upper boundary: `current >= upper`.
    Above,
}

/// The position of `current` relative to the half-open range `[lower, upper)`.
pub open spec fn locate(current: int, lower: int, upper: int) -> TickPosition {
    if current < lower {
        TickPosition::Below
    } else if current >= upper {
        TickPosition::Above
    } else {
        TickPosition::Within
    }
}

/// Exactly one of three statements holds.
pub open spec fn exactly_one(a: bool, b: bool, c: bool) -> bool {
    (a && !b && !c) || (!a && b && !c) || (!a && !b && c)
}

/// For a range with `lower < upper`, the three cases "below", "at or above the
/// upper boundary" and "inside" exclude one another and together cover every
/// current tick, and [`locate`] names the one that holds.
pub proof fn lemma_locate_partition(current: int, lower: int, upper: int)
    requires
        lower < upper,
    ensures
        exactly_one(current < lower, current >= upper, lower <= current < upper),
        locate(current, lower, upper) == TickPosition::Below <==> current < lower,
        locate(current, lower, upper) == TickPosition::Above <==> current >= upper,
        locate(current, lower, upper) == TickPosition::Within <==> lower <= current < upper,
{
}

/// The tick range `[lower, upper)` of a position.
///
/// A range always satisfies `lower < upper`: [`TickRange::new`] is the only
/// way to make one, and it rejects every other pair.
#[derive(Clone, Copy, Debug, PartialEq, Eq, Structural)]
pub struct TickRange {
    lower: i32,
    upper: i32,
}

impl TickRange {
    #[verifier::type_invariant]
    spec fn ordered(self) -> bool {
        self.lower < self.upper
    }

    /// The lower boundary tick.
    pub closed spec fn spec_lower(&self) -> i32 {
        self.lower
    }

    /// The upper boundary tick.
    pub closed spec fn spec_upper(&self) -> i32 {
        self.upper
    }

    /// The range `[lower, upper)`, or `None` when `lower >= upper`: such a
    /// pair describes no position.
    pub fn new(lower: i32, upper: i32) -> (r: Option<TickRange>)
        ensures
            r is Some <==> lower < upper,
            r matches Some(t) ==> t.lower() == lower && t.upper() == upper,
    {
        if lower < upper {
            Some(TickRange { lower, upper })
        } else {
            None
        }
    }

    /// The lower boundary tick, which is below the upper one.
    #[verifier::when_used_as_spec(spec_lower)]
    pub fn lower(&self) -> (r: i32)
        ensures
            r == self.lower(),
            r < self.upper(),
    {
        proof {
            use_type_invariant(self);
        }
        self.lower
    }

    /// The upper boundary tick, which is above the lower one.
    #[verifier::when_used_as_spec(spec_upper)]
    pub fn upper(&self) -> (r: i32)
        ensures
            r == self.upper(),
            self.lower() < r,
    {
        proof {
            use_type_invariant(self);
        }
        self.upper
    }

    /// Decides which of the three cases of [`locate`] holds for `current_tick`.
    pub fn locate(&self, current_tick: i32) -> (p: TickPosition)
        ensures
            p == locate(current_tick as int, self.lower() as int, self.upper() as int),
            p == TickPosition::Below <==> current_tick < self.lower(),
            p == TickPosition::Above <==> current_tick >= self.upper(),
            p == TickPosition::Within <==> self.lower() <= current_tick < self.upper(),
    {
        proof {
            use_type_invariant(self);
        }
        if current_tick < self.lower {
            TickPosition::Below
        } else if current_tick >= self.upper {
            TickPosition::Above
        } else {
            TickPosition::Within
        }
    }
}

} // verus!
