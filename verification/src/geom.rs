//! Plain integer geometry: points and axis-aligned rectangles in pixel space.
//!
//! All coordinates in this crate are whole pixels held in `i64`.  The driver
//! reports match rectangles in a screen's physical-pixel space; dividing by
//! the screen's scale factor yields logical units (see [`crate::screen`]).

use vstd::prelude::*;

verus! {

/// Coordinates the crate accepts stay within this bound, which keeps every
/// intermediate product of the normalizer and the path sampler inside `i64`.
pub const COORD_BOUND: i64 = 0x8000_0000;

/// A point in pixel space, physical or logical depending on context.
#[derive(Clone, Copy, Debug, PartialEq, Eq, Structural)]
pub struct Point {
    pub x: i64,
    pub y: i64,
}

impl Point {
    pub fn new(x: i64, y: i64) -> (r: Point)
        ensures
            r == (Point { x, y }),
    {
        Point { x, y }
    }

    /// The point lies within `COORD_BOUND` on both axes.
    pub open spec fn in_range(self) -> bool {
        -COORD_BOUND <= self.x <= COORD_BOUND && -COORD_BOUND <= self.y <= COORD_BOUND
    }
}

/// An axis-aligned bounding rectangle, `min` at the top-left corner.
#[derive(Clone, Copy, Debug, PartialEq, Eq, Structural)]
pub struct BoundingRectangle {
    pub min: Point,
    pub max: Point,
}

impl BoundingRectangle {
    /// A well-formed match rectangle: reported in a screen's physical-pixel
    /// space, so both corners are non-negative, ordered, and in range.
    pub open spec fn wf(self) -> bool {
        &&& 0 <= self.min.x <= self.max.x <= COORD_BOUND
        &&& 0 <= self.min.y <= self.max.y <= COORD_BOUND
    }

    /// Whether `point` lies inside the rectangle, borders included.
    pub fn contains_point(&self, point: Point) -> (r: bool)
        ensures
            r == (self.min.x <= point.x <= self.max.x && self.min.y <= point.y <= self.max.y),
    {
        self.min.x <= point.x && self.min.y <= point.y && self.max.x >= point.x
            && self.max.y >= point.y
    }

    /// The midpoint of the two corners, each axis rounded down to a whole
    /// pixel.
    pub fn center(&self) -> (r: Point)
        requires
            self.wf(),
        ensures
            r.x == (self.min.x + self.max.x) / 2,
            r.y == (self.min.y + self.max.y) / 2,
    {
        Point { x: (self.min.x + self.max.x) / 2, y: (self.min.y + self.max.y) / 2 }
    }
}

} // verus!
