//! Axis-aligned rectangles and the overlap test every collision check uses.

use vstd::prelude::*;

verus! {

/// Bound on every rectangle coordinate and extent handed to the overlap test,
/// in milli-pixels; keeps the sums inside it far from `i64` overflow.
pub const RECT_COORD_BOUND_MP: i64 = 8_000_000_000;

/// An axis-aligned rectangle in milli-pixel coordinates.
#[derive(Clone, Copy, Debug, PartialEq, Eq, Structural)]
pub struct Rect {
    pub x: i64,
    pub y: i64,
    pub w: i64,
    pub h: i64,
}

impl Rect {
    /// All coordinates and extents small enough that the overlap test cannot
    /// overflow.
    pub open spec fn in_bounds(self) -> bool {
        &&& -RECT_COORD_BOUND_MP <= self.x <= RECT_COORD_BOUND_MP
        &&& -RECT_COORD_BOUND_MP <= self.y <= RECT_COORD_BOUND_MP
        &&& 0 <= self.w <= RECT_COORD_BOUND_MP
        &&& 0 <= self.h <= RECT_COORD_BOUND_MP
    }
}

/// Two rectangles overlap when each one starts strictly before the other ends,
/// on both axes. Rectangles that merely share an edge do not overlap.
pub open spec fn rects_overlap(r1: Rect, r2: Rect) -> bool {
    &&& r1.x < r2.x + r2.w
    &&& r1.x + r1.w > r2.x
    &&& r1.y < r2.y + r2.h
    &&& r1.y + r1.h > r2.y
}

/// Decides whether two rectangles overlap.
pub fn check_collision_recs(r1: Rect, r2: Rect) -> (r: bool)
    requires
        r1.in_bounds(),
        r2.in_bounds(),
    ensures
        r == rects_overlap(r1, r2),
{
    r1.x < r2.x + r2.w && r1.x + r1.w > r2.x && r1.y < r2.y + r2.h && r1.y + r1.h > r2.y
}

} // verus!
