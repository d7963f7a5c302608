//! Plane coordinates, the viewport, and interval clamping.

use vstd::prelude::*;

verus! {

/// Largest coordinate magnitude, in milliunits, that the model works with.
/// It leaves ample headroom below `i64::MAX` for one frame's displacement.
pub const COORD_LIMIT: i64 = 1_000_000_000_000_000;

/// A point on the plane, in milliunits (thousandths of a world unit).
#[derive(Clone, Copy, PartialEq, Eq, Structural, Debug)]
pub struct Position {
    pub x: i64,
    pub y: i64,
}

impl Position {
    /// Both coordinates are within the model's working range.
    pub open spec fn in_range(self) -> bool {
        -COORD_LIMIT <= self.x <= COORD_LIMIT && -COORD_LIMIT <= self.y <= COORD_LIMIT
    }
}

/// The current size of the display surface, in milliunits.
#[derive(Clone, Copy, PartialEq, Eq, Structural, Debug)]
pub struct Viewport {
    pub width: u64,
    pub height: u64,
}

impl Viewport {
    /// Dimensions small enough that every derived bound stays in range.
    pub open spec fn wf(self) -> bool {
        self.width <= COORD_LIMIT && self.height <= COORD_LIMIT
    }
}

/// `v` forced into the interval `[lo, hi]`, checking the lower bound first.
pub open spec fn clamped(v: int, lo: int, hi: int) -> int {
    if v < lo {
        lo
    } else if v > hi {
        hi
    } else {
        v
    }
}

/// Clamping lands inside the interval whenever the interval is nonempty.
pub proof fn lemma_clamped_in_interval(v: int, lo: int, hi: int)
    requires
        lo <= hi,
    ensures
        lo <= clamped(v, lo, hi) <= hi,
{
}

} // verus!
