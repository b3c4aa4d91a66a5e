//! Flow-space geometry: points, dimensions, rectangles, and the four handle
//! sides of a node.

use vstd::prelude::*;
use crate::num::{coord_ok, div_floor};

verus! {

/// A point, in flow-space or screen-space units.
#[derive(Clone, Copy, PartialEq, Eq, Structural, Debug)]
pub struct XYPosition {
    pub x: i64,
    pub y: i64,
}

/// All four coordinates of a rectangle stay within the flow-space bound.
pub open spec fn rect_ok(r: Rect) -> bool {
    &&& coord_ok(r.x as int)
    &&& coord_ok(r.y as int)
    &&& coord_ok(r.width as int)
    &&& coord_ok(r.height as int)
}

pub open spec fn point_ok(p: XYPosition) -> bool {
    coord_ok(p.x as int) && coord_ok(p.y as int)
}

/// A rectangle whose coordinates stay within the span of a bounding box over
/// in-range rectangles.
pub open spec fn rect_span_ok(r: Rect) -> bool {
    &&& crate::num::span_ok(r.x as int)
    &&& crate::num::span_ok(r.y as int)
    &&& crate::num::span_ok(r.width as int)
    &&& crate::num::span_ok(r.height as int)
}

impl XYPosition {
    pub fn new(x: i64, y: i64) -> (r: Self)
        ensures
            r.x == x,
            r.y == y,
    {
        XYPosition { x, y }
    }

    /// Component-wise sum.
    pub fn plus(self, other: Self) -> (r: Self)
        requires
            self.x + other.x <= i64::MAX,
            self.x + other.x >= i64::MIN,
            self.y + other.y <= i64::MAX,
            self.y + other.y >= i64::MIN,
        ensures
            r.x == self.x + other.x,
            r.y == self.y + other.y,
    {
        XYPosition { x: self.x + other.x, y: self.y + other.y }
    }

    /// Component-wise difference.
    pub fn minus(self, other: Self) -> (r: Self)
        requires
            self.x - other.x <= i64::MAX,
            self.x - other.x >= i64::MIN,
            self.y - other.y <= i64::MAX,
            self.y - other.y >= i64::MIN,
        ensures
            r.x == self.x - other.x,
            r.y == self.y - other.y,
    {
        XYPosition { x: self.x - other.x, y: self.y - other.y }
    }

    /// Squared Euclidean distance, exact for any pair of in-range points.
    pub fn dist_sq(&self, other: &XYPosition) -> (r: u128)
        requires
            crate::num::screen_ok(self.x as int),
            crate::num::screen_ok(self.y as int),
            crate::num::screen_ok(other.x as int),
            crate::num::screen_ok(other.y as int),
        ensures
            r == dist_sq_spec(*self, *other),
    {
        let dx: i128 = (self.x as i128) - (other.x as i128);
        let dy: i128 = (self.y as i128) - (other.y as i128);
        proof {
            let dxi = self.x as int - other.x as int;
            let dyi = self.y as int - other.y as int;
            assert(0 <= dxi * dxi <= 0x4000_0000_0000_0000_0000_0000_0000_0000)
                by (nonlinear_arith)
                requires
                    -0x8000_0000_0000_0000 <= dxi <= 0x8000_0000_0000_0000,
            {
            }
            assert(0 <= dyi * dyi <= 0x4000_0000_0000_0000_0000_0000_0000_0000)
                by (nonlinear_arith)
                requires
                    -0x8000_0000_0000_0000 <= dyi <= 0x8000_0000_0000_0000,
            {
            }
        }
        let sqx: u128 = (dx * dx) as u128;
        let sqy: u128 = (dy * dy) as u128;
        sqx + sqy
    }
}

/// `(b - a).x^2 + (b - a).y^2` as a mathematical integer.
pub open spec fn dist_sq_spec(a: XYPosition, b: XYPosition) -> int {
    (a.x - b.x) * (a.x - b.x) + (a.y - b.y) * (a.y - b.y)
}

impl Default for XYPosition {
    fn default() -> (r: Self)
        ensures
            r.x == 0 && r.y == 0,
    {
        XYPosition { x: 0, y: 0 }
    }
}

/// Width and height of a node or of the viewport, in flow-space units.
#[derive(Clone, Copy, PartialEq, Eq, Structural, Debug)]
pub struct Dimensions {
    pub width: i64,
    pub height: i64,
}

impl Dimensions {
    pub fn new(width: i64, height: i64) -> (r: Self)
        ensures
            r.width == width,
            r.height == height,
    {
        Dimensions { width, height }
    }
}

impl Default for Dimensions {
    fn default() -> (r: Self)
        ensures
            r.width == 0 && r.height == 0,
    {
        Dimensions { width: 0, height: 0 }
    }
}

/// An axis-aligned rectangle: origin plus extent.
#[derive(Clone, Copy, PartialEq, Eq, Structural, Debug)]
pub struct Rect {
    pub x: i64,
    pub y: i64,
    pub width: i64,
    pub height: i64,
}

/// The point lies inside the rectangle, borders included.
pub open spec fn rect_contains_pt(r: Rect, p: XYPosition) -> bool {
    &&& p.x >= r.x
    &&& p.x <= r.x + r.width
    &&& p.y >= r.y
    &&& p.y <= r.y + r.height
}

/// The interiors of the two rectangles overlap (touching borders do not
/// count).
pub open spec fn rects_intersect(a: Rect, b: Rect) -> bool {
    &&& a.x < b.x + b.width
    &&& a.x + a.width > b.x
    &&& a.y < b.y + b.height
    &&& a.y + a.height > b.y
}

/// `inner` lies entirely within `outer`, borders included.
pub open spec fn rect_contains_rect(outer: Rect, inner: Rect) -> bool {
    &&& inner.x >= outer.x
    &&& inner.y >= outer.y
    &&& inner.x + inner.width <= outer.x + outer.width
    &&& inner.y + inner.height <= outer.y + outer.height
}

impl Rect {
    pub fn new(x: i64, y: i64, width: i64, height: i64) -> (r: Self)
        ensures
            r == (Rect { x, y, width, height }),
    {
        Rect { x, y, width, height }
    }

    pub fn from_position_and_dimensions(position: XYPosition, dimensions: Dimensions) -> (r: Self)
        ensures
            r == (Rect {
                x: position.x,
                y: position.y,
                width: dimensions.width,
                height: dimensions.height,
            }),
    {
        Rect { x: position.x, y: position.y, width: dimensions.width, height: dimensions.height }
    }

    /// Midpoint of the rectangle; odd extents round toward negative infinity.
    pub fn center(&self) -> (r: XYPosition)
        requires
            rect_ok(*self),
        ensures
            r.x == self.x + self.width as int / 2,
            r.y == self.y + self.height as int / 2,
    {
        XYPosition { x: self.x + div_floor(self.width, 2), y: self.y + div_floor(self.height, 2) }
    }

    pub fn contains(&self, point: &XYPosition) -> (r: bool)
        ensures
            r == rect_contains_pt(*self, *point),
    {
        let px: i128 = point.x as i128;
        let py: i128 = point.y as i128;
        px >= self.x as i128 && px <= self.x as i128 + self.width as i128 && py >= self.y as i128
            && py <= self.y as i128 + self.height as i128
    }

    pub fn intersects(&self, other: &Rect) -> (r: bool)
        ensures
            r == rects_intersect(*self, *other),
    {
        (self.x as i128) < other.x as i128 + other.width as i128
            && self.x as i128 + self.width as i128 > other.x as i128
            && (self.y as i128) < other.y as i128 + other.height as i128
            && self.y as i128 + self.height as i128 > other.y as i128
    }

    pub fn contains_rect(&self, other: &Rect) -> (r: bool)
        ensures
            r == rect_contains_rect(*self, *other),
    {
        other.x as i128 >= self.x as i128 && other.y as i128 >= self.y as i128
            && other.x as i128 + other.width as i128 <= self.x as i128 + self.width as i128
            && other.y as i128 + other.height as i128 <= self.y as i128 + self.height as i128
    }

    /// Smallest rectangle containing both inputs.
    pub fn union(&self, other: &Rect) -> (r: Rect)
        requires
            rect_ok(*self),
            rect_ok(*other),
        ensures
            r.x == vstd::math::min(self.x as int, other.x as int),
            r.y == vstd::math::min(self.y as int, other.y as int),
            r.x + r.width == vstd::math::max(
                self.x + self.width,
                other.x + other.width,
            ),
            r.y + r.height == vstd::math::max(
                self.y + self.height,
                other.y + other.height,
            ),
    {
        let min_x = crate::num::min_i64(self.x, other.x);
        let min_y = crate::num::min_i64(self.y, other.y);
        let max_x = crate::num::max_i64(self.x + self.width, other.x + other.width);
        let max_y = crate::num::max_i64(self.y + self.height, other.y + other.height);
        Rect { x: min_x, y: min_y, width: max_x - min_x, height: max_y - min_y }
    }
}

impl Default for Rect {
    fn default() -> (r: Self)
        ensures
            r == (Rect { x: 0, y: 0, width: 0, height: 0 }),
    {
        Rect { x: 0, y: 0, width: 0, height: 0 }
    }
}

/// Side of a node on which a handle sits.
#[derive(Clone, Copy, PartialEq, Eq, Structural, Hash, Debug)]
pub enum Position {
    Left,
    Right,
    Top,
    Bottom,
}

impl Position {
    pub fn opposite(&self) -> (r: Self)
        ensures
            r == match *self {
                Position::Left => Position::Right,
                Position::Right => Position::Left,
                Position::Top => Position::Bottom,
                Position::Bottom => Position::Top,
            },
    {
        match self {
            Position::Left => Position::Right,
            Position::Right => Position::Left,
            Position::Top => Position::Bottom,
            Position::Bottom => Position::Top,
        }
    }

    pub fn is_horizontal(&self) -> (r: bool)
        ensures
            r == (*self == Position::Left || *self == Position::Right),
    {
        match self {
            Position::Left | Position::Right => true,
            _ => false,
        }
    }

    pub fn is_vertical(&self) -> (r: bool)
        ensures
            r == (*self == Position::Top || *self == Position::Bottom),
    {
        match self {
            Position::Top | Position::Bottom => true,
            _ => false,
        }
    }
}

impl Default for Position {
    fn default() -> (r: Self)
        ensures
            r == Position::Top,
    {
        Position::Top
    }
}

/// Alignment of a toolbar along its node edge.
#[derive(Clone, Copy, PartialEq, Eq, Structural, Debug)]
pub enum ToolbarAlign {
    Start,
    Center,
    End,
}

impl Default for ToolbarAlign {
    fn default() -> (r: Self)
        ensures
            r == ToolbarAlign::Center,
    {
        ToolbarAlign::Center
    }
}

} // verus!
