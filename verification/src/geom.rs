//! Screen geometry: points and axis-aligned rectangles in pixels.
use vstd::prelude::*;

verus! {

/// A point on the screen, in pixels.
#[derive(Clone, Copy, Debug, PartialEq, Eq, Structural)]
pub struct Point {
    pub x: i32,
    pub y: i32,
}

impl Point {
    pub fn new(x: i32, y: i32) -> (p: Point)
        ensures
            p.x == x,
            p.y == y,
    {
        Point { x, y }
    }
}

/// An axis-aligned rectangle: `min` is its top-left corner (included),
/// `max` its bottom-right corner (excluded).
#[derive(Clone, Copy, Debug, PartialEq, Eq, Structural)]
pub struct Rectangle {
    pub min: Point,
    pub max: Point,
}

/// Whether an integer fits in an `i32`.
pub open spec fn fits_i32(v: int) -> bool {
    i32::MIN <= v <= i32::MAX
}

/// The rectangle with the given corners.
pub open spec fn rect_of(x0: int, y0: int, x1: int, y1: int) -> Rectangle {
    Rectangle {
        min: Point { x: x0 as i32, y: y0 as i32 },
        max: Point { x: x1 as i32, y: y1 as i32 },
    }
}

impl Rectangle {
    /// The rectangle spanned by `(x0, y0)` (top-left) and `(x1, y1)` (bottom-right).
    pub fn new(x0: i32, y0: i32, x1: i32, y1: i32) -> (r: Rectangle)
        ensures
            r == rect_of(x0 as int, y0 as int, x1 as int, y1 as int),
    {
        Rectangle { min: Point { x: x0, y: y0 }, max: Point { x: x1, y: y1 } }
    }

    /// Signed width: `max.x - min.x`.
    pub open spec fn spec_width(self) -> int {
        self.max.x - self.min.x
    }

    /// Signed height: `max.y - min.y`.
    pub open spec fn spec_height(self) -> int {
        self.max.y - self.min.y
    }

    /// Signed width of the rectangle.
    pub fn width(&self) -> (w: i32)
        requires
            fits_i32(self.spec_width()),
        ensures
            w == self.spec_width(),
    {
        self.max.x - self.min.x
    }

    /// Signed height of the rectangle.
    pub fn height(&self) -> (h: i32)
        requires
            fits_i32(self.spec_height()),
        ensures
            h == self.spec_height(),
    {
        self.max.y - self.min.y
    }

    /// Whether `pt` lies inside the rectangle (top and left edges in, bottom and right out).
    pub open spec fn contains_point(self, pt: Point) -> bool {
        &&& self.min.x <= pt.x < self.max.x
        &&& self.min.y <= pt.y < self.max.y
    }

    pub fn includes(&self, pt: Point) -> (b: bool)
        ensures
            b == self.contains_point(pt),
    {
        self.min.x <= pt.x && pt.x < self.max.x && self.min.y <= pt.y && pt.y < self.max.y
    }
}

/// A point lies in a rectangle only between its edges: a point above the top
/// edge, at or below the bottom edge, left of the left edge or at or right of
/// the right edge is never in it.
pub proof fn lemma_outside_point_excluded(r: Rectangle, pt: Point)
    requires
        pt.y < r.min.y || pt.y >= r.max.y || pt.x < r.min.x || pt.x >= r.max.x,
    ensures
        !r.contains_point(pt),
{
}

/// Every point between the edges of a rectangle (top and left edges included,
/// bottom and right edges excluded) lies in it; in particular its top-left
/// corner does whenever it is not empty.
pub proof fn lemma_inside_point_included(r: Rectangle, pt: Point)
    requires
        r.min.x <= pt.x < r.max.x,
        r.min.y <= pt.y < r.max.y,
    ensures
        r.contains_point(pt),
        r.contains_point(r.min),
{
}

} // verus!
