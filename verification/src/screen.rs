//! Screens as the driver reports them, and the coordinate normalizer.
//!
//! A screen's origin and size are physical pixels.  The scale factor relates
//! physical to logical pixels; the driver sends it as a decimal number, which
//! this crate holds exactly in thousandths (`1.5` is `1500`).  Normalizing a
//! match rectangle means taking its center, dividing by the scale factor, and
//! offsetting by the screen's origin: the result is an absolute
//! logical-coordinate point.

use vstd::prelude::*;

use crate::geom::BoundingRectangle;
use crate::geom::COORD_BOUND;
use crate::geom::Point;

verus! {

/// A screen's physical-to-logical scale factor, held in thousandths.
///
/// `millis == 1000` is a 1:1 display, `millis == 2000` a 2x high-density one.
#[derive(Clone, Copy, Debug, PartialEq, Eq, Structural)]
pub struct ScaleFactor {
    pub millis: u32,
}

impl ScaleFactor {
    /// A scale factor is strictly positive.
    pub open spec fn wf(self) -> bool {
        self.millis >= 1
    }

    pub fn new(millis: u32) -> (r: ScaleFactor)
        requires
            millis >= 1,
        ensures
            r == (ScaleFactor { millis }),
    {
        ScaleFactor { millis }
    }
}

/// Information about a screen or monitor, as returned by the driver.
///
/// The client never constructs or mutates one on its own authority; screens
/// come back from `GetScreens` and `GetMainScreen`.
#[derive(Clone, Debug, PartialEq, Eq)]
pub struct Screen {
    pub name: String,
    pub x: u64,
    pub y: u64,
    pub width: u64,
    pub height: u64,
    pub scale_factor: ScaleFactor,
}

/// The spec-level value of a [`Screen`].
pub struct ScreenV {
    pub name: Seq<char>,
    pub x: u64,
    pub y: u64,
    pub width: u64,
    pub height: u64,
    pub scale_factor: ScaleFactor,
}

impl View for Screen {
    type V = ScreenV;

    open spec fn view(&self) -> ScreenV {
        ScreenV {
            name: self.name@,
            x: self.x,
            y: self.y,
            width: self.width,
            height: self.height,
            scale_factor: self.scale_factor,
        }
    }
}

impl ScreenV {
    /// Origin and size fit in the coordinate range, and the scale factor is
    /// positive.
    pub open spec fn wf(self) -> bool {
        &&& self.x + self.width <= COORD_BOUND
        &&& self.y + self.height <= COORD_BOUND
        &&& self.scale_factor.wf()
    }
}

impl Screen {
    /// The screen's bounding box in physical pixels: from the origin to the
    /// origin plus the size.
    pub fn bounds(&self) -> (r: BoundingRectangle)
        requires
            self@.wf(),
        ensures
            r.min.x == self.x,
            r.min.y == self.y,
            r.max.x == self.x + self.width,
            r.max.y == self.y + self.height,
            r.wf(),
    {
        BoundingRectangle {
            min: Point { x: self.x as i64, y: self.y as i64 },
            max: Point {
                x: self.x as i64 + self.width as i64,
                y: self.y as i64 + self.height as i64,
            },
        }
    }

    /// Whether `point` lies within the screen's bounding box, borders
    /// included.
    pub fn contains_abs_point(&self, point: Point) -> (r: bool)
        requires
            self@.wf(),
        ensures
            r == (self.x <= point.x <= self.x + self.width && self.y <= point.y <= self.y
                + self.height),
    {
        self.bounds().contains_point(point)
    }
}

/// What [`normalize`] returns on the x axis: the screen origin plus the
/// rectangle's center divided by the scale factor, rounded down to a whole
/// logical pixel.
pub open spec fn spec_normalize_x(s: ScreenV, r: BoundingRectangle) -> int {
    s.x + (r.min.x + r.max.x) * 1000 / (2 * s.scale_factor.millis as int)
}

/// The y-axis value of [`normalize`], mirroring [`spec_normalize_x`].
pub open spec fn spec_normalize_y(s: ScreenV, r: BoundingRectangle) -> int {
    s.y + (r.min.y + r.max.y) * 1000 / (2 * s.scale_factor.millis as int)
}

/// Converts a match rectangle reported in `screen`'s physical-pixel space
/// into an absolute logical-coordinate point: the screen origin plus the
/// rectangle's center divided by the scale factor.
///
/// Defined for every well-formed screen and rectangle; there is no error
/// case.
pub fn normalize(screen: &Screen, rect: &BoundingRectangle) -> (p: Point)
    requires
        screen@.wf(),
        rect.wf(),
    ensures
        p.x == spec_normalize_x(screen@, *rect),
        p.y == spec_normalize_y(screen@, *rect),
{
    let millis = screen.scale_factor.millis as i64;
    let cx2: i64 = rect.min.x + rect.max.x;
    let cy2: i64 = rect.min.y + rect.max.y;
    let x: i64 = screen.x as i64 + cx2 * 1000 / (2 * millis);
    let y: i64 = screen.y as i64 + cy2 * 1000 / (2 * millis);
    Point { x, y }
}

} // verus!
