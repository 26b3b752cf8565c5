//! Plain integer geometry: positions, sizes, rectangles and one-dimensional
//! ranges in whole logical units.
//!
//! All coordinates are kept within [`COORD_LIMIT`] so that the sums and
//! differences the rest of the crate computes always fit in an `i64`.

use vstd::prelude::*;

verus! {

/// Largest magnitude a logical coordinate may have.
pub const COORD_LIMIT: i64 = 4_294_967_296;

/// Whether a single coordinate is within the range the crate computes with.
pub open spec fn coord_ok(x: int) -> bool {
    -(COORD_LIMIT as int) <= x && x <= COORD_LIMIT as int
}

/// A position in logical units.
#[derive(Clone, Copy, Debug, PartialEq, Eq, Structural)]
pub struct Pos2 {
    pub x: i64,
    pub y: i64,
}

/// A size or offset in logical units.
#[derive(Clone, Copy, Debug, PartialEq, Eq, Structural)]
pub struct Vec2 {
    pub x: i64,
    pub y: i64,
}

/// An axis-aligned rectangle given by its minimum and maximum corners.
#[derive(Clone, Copy, Debug, PartialEq, Eq, Structural)]
pub struct Rect {
    pub min: Pos2,
    pub max: Pos2,
}

/// An inclusive one-dimensional range of logical coordinates.
#[derive(Clone, Copy, Debug, PartialEq, Eq, Structural)]
pub struct Rangei {
    pub min: i64,
    pub max: i64,
}

impl Pos2 {
    /// Both coordinates are within bounds.
    pub open spec fn ok(self) -> bool {
        coord_ok(self.x as int) && coord_ok(self.y as int)
    }
}

impl Vec2 {
    /// Both components are within bounds.
    pub open spec fn ok(self) -> bool {
        coord_ok(self.x as int) && coord_ok(self.y as int)
    }

    /// The componentwise minimum of two sizes.
    pub fn min(self, other: Vec2) -> (r: Vec2)
        ensures
            r.x == if self.x <= other.x { self.x } else { other.x },
            r.y == if self.y <= other.y { self.y } else { other.y },
    {
        Vec2 {
            x: if self.x <= other.x { self.x } else { other.x },
            y: if self.y <= other.y { self.y } else { other.y },
        }
    }

    /// The componentwise maximum of two sizes.
    pub fn max(self, other: Vec2) -> (r: Vec2)
        ensures
            r.x == if self.x >= other.x { self.x } else { other.x },
            r.y == if self.y >= other.y { self.y } else { other.y },
    {
        Vec2 {
            x: if self.x >= other.x { self.x } else { other.x },
            y: if self.y >= other.y { self.y } else { other.y },
        }
    }
}

impl Rect {
    /// All four coordinates are within bounds.
    pub open spec fn ok(self) -> bool {
        self.min.ok() && self.max.ok()
    }

    /// A rectangle from its minimum corner and its size.
    pub fn from_min_size(min: Pos2, size: Vec2) -> (r: Rect)
        requires
            min.ok(),
            size.ok(),
        ensures
            r.min == min,
            r.max.x == min.x + size.x,
            r.max.y == min.y + size.y,
    {
        Rect { min, max: Pos2 { x: min.x + size.x, y: min.y + size.y } }
    }

    /// A rectangle from a horizontal and a vertical range.
    pub fn from_x_y_ranges(x_range: Rangei, y_range: Rangei) -> (r: Rect)
        ensures
            r.min.x == x_range.min,
            r.max.x == x_range.max,
            r.min.y == y_range.min,
            r.max.y == y_range.max,
    {
        Rect {
            min: Pos2 { x: x_range.min, y: y_range.min },
            max: Pos2 { x: x_range.max, y: y_range.max },
        }
    }

    /// The left edge.
    pub fn left(&self) -> (r: i64)
        ensures
            r == self.min.x,
    {
        self.min.x
    }

    /// The top edge.
    pub fn top(&self) -> (r: i64)
        ensures
            r == self.min.y,
    {
        self.min.y
    }

    /// The right edge.
    pub fn right(&self) -> (r: i64)
        ensures
            r == self.max.x,
    {
        self.max.x
    }

    /// The bottom edge.
    pub fn bottom(&self) -> (r: i64)
        ensures
            r == self.max.y,
    {
        self.max.y
    }

    /// The width, possibly negative for an inverted rectangle.
    pub fn width(&self) -> (r: i64)
        requires
            self.ok(),
        ensures
            r == self.max.x - self.min.x,
    {
        self.max.x - self.min.x
    }

    /// The height, possibly negative for an inverted rectangle.
    pub fn height(&self) -> (r: i64)
        requires
            self.ok(),
        ensures
            r == self.max.y - self.min.y,
    {
        self.max.y - self.min.y
    }

    /// The size of the rectangle.
    pub fn size(&self) -> (r: Vec2)
        requires
            self.ok(),
        ensures
            r.x == self.max.x - self.min.x,
            r.y == self.max.y - self.min.y,
    {
        Vec2 { x: self.max.x - self.min.x, y: self.max.y - self.min.y }
    }

    /// The center point; each axis is the halved sum of the edges, rounded
    /// toward zero.
    pub fn center(&self) -> (r: Pos2)
        requires
            self.ok(),
        ensures
            r.x == spec_div2(self.min.x + self.max.x),
            r.y == spec_div2(self.min.y + self.max.y),
    {
        Pos2 { x: div2(self.min.x + self.max.x), y: div2(self.min.y + self.max.y) }
    }

    /// The horizontal extent.
    pub fn x_range(&self) -> (r: Rangei)
        ensures
            r.min == self.min.x,
            r.max == self.max.x,
    {
        Rangei { min: self.min.x, max: self.max.x }
    }

    /// The vertical extent.
    pub fn y_range(&self) -> (r: Rangei)
        ensures
            r.min == self.min.y,
            r.max == self.max.y,
    {
        Rangei { min: self.min.y, max: self.max.y }
    }
}

/// `pos2(x, y)` builds a [`Pos2`].
pub fn pos2(x: i64, y: i64) -> (r: Pos2)
    ensures
        r.x == x,
        r.y == y,
{
    Pos2 { x, y }
}

/// `vec2(x, y)` builds a [`Vec2`].
pub fn vec2(x: i64, y: i64) -> (r: Vec2)
    ensures
        r.x == x,
        r.y == y,
{
    Vec2 { x, y }
}

/// The smaller of two coordinates.
pub open spec fn spec_min(a: int, b: int) -> int {
    if a <= b {
        a
    } else {
        b
    }
}

/// The larger of two coordinates.
pub open spec fn spec_max(a: int, b: int) -> int {
    if a >= b {
        a
    } else {
        b
    }
}

/// Half of `x`, rounded toward zero.
pub open spec fn spec_div2(x: int) -> int {
    if x >= 0 {
        x / 2
    } else {
        -((-x) / 2)
    }
}

/// Half of `x`, rounded toward zero.
pub fn div2(x: i64) -> (r: i64)
    requires
        coord_ok(x as int) || (-2 * COORD_LIMIT as int <= x as int
            && x as int <= 2 * COORD_LIMIT as int),
    ensures
        r == spec_div2(x as int),
{
    if x >= 0 {
        x / 2
    } else {
        -((-x) / 2)
    }
}

/// Clamp `x` into the inclusive range `[lo, hi]`; `lo` wins when `lo > hi`.
pub fn clamp_i64(x: i64, lo: i64, hi: i64) -> (r: i64)
    ensures
        r == spec_clamp(x as int, lo as int, hi as int),
{
    if hi < lo {
        lo
    } else if x < lo {
        lo
    } else if x > hi {
        hi
    } else {
        x
    }
}

/// Clamp `x` into `[lo, hi]`; `lo` wins when `lo > hi`.
pub open spec fn spec_clamp(x: int, lo: int, hi: int) -> int {
    if hi < lo {
        lo
    } else if x < lo {
        lo
    } else if x > hi {
        hi
    } else {
        x
    }
}

} // verus!
