//! One- and two-dimensional alignment for anchors and layouts, over the
//! integer geometry of [`crate::geom`].

use vstd::prelude::*;

use crate::geom::{coord_ok, div2, pos2, spec_div2, Pos2, Rangei, Rect, Vec2};

verus! {

/// Left/center/right or top/center/bottom alignment.
#[derive(Clone, Copy, Debug, Default, PartialEq, Eq, Structural)]
pub enum Align {
    /// Left or top.
    #[default]
    Min,
    /// Horizontal or vertical center.
    Center,
    /// Right or bottom.
    Max,
}

/// Where the start of an aligned range of length `size` falls inside
/// `[min, max]`: at the start for `Min`, centered for `Center` (both the
/// midpoint and the half size rounded toward zero), at the end for `Max`.
pub open spec fn spec_aligned_start(a: Align, min: int, max: int, size: int) -> int {
    match a {
        Align::Min => min,
        Align::Center => spec_div2(min + max) - spec_div2(size),
        Align::Max => max - size,
    }
}

/// Where the origin of an extent anchored at `at` falls: at `at` for `Min`,
/// pulled back by half the extent for `Center` and by the whole extent for
/// `Max`.
pub open spec fn spec_anchor_origin(a: Align, at: int, extent: int) -> int {
    match a {
        Align::Min => at,
        Align::Center => at - spec_div2(extent),
        Align::Max => at - extent,
    }
}

/// The inverse alignment.
pub open spec fn spec_flip(a: Align) -> Align {
    match a {
        Align::Min => Align::Max,
        Align::Center => Align::Center,
        Align::Max => Align::Min,
    }
}

impl Align {
    /// `Min => -1`, `Center => 0`, `Max => 1`.
    pub fn to_sign(self) -> (r: i64)
        ensures
            r == match self {
                Align::Min => -1int,
                Align::Center => 0int,
                Align::Max => 1int,
            },
    {
        match self {
            Align::Min => -1,
            Align::Center => 0,
            Align::Max => 1,
        }
    }

    /// The inverse alignment: `Min` becomes `Max`, `Center` stays the same,
    /// `Max` becomes `Min`.
    pub fn flip(self) -> (r: Self)
        ensures
            r == spec_flip(self),
    {
        match self {
            Align::Min => Align::Max,
            Align::Center => Align::Center,
            Align::Max => Align::Min,
        }
    }

    /// A range of the given size placed within `range` according to this
    /// alignment. If `size` exceeds the range, the result sticks out: past
    /// the end for `Min`, past both sides for `Center`, past the start for
    /// `Max`.
    pub fn align_size_within_range(self, size: i64, range: Rangei) -> (r: Rangei)
        requires
            coord_ok(size as int),
            coord_ok(range.min as int),
            coord_ok(range.max as int),
        ensures
            r.min == spec_aligned_start(self, range.min as int, range.max as int, size as int),
            r.max == r.min + size,
    {
        match self {
            Align::Min => Rangei { min: range.min, max: range.min + size },
            Align::Center => {
                let left = div2(range.min + range.max) - div2(size);
                Rangei { min: left, max: left + size }
            },
            Align::Max => Rangei { min: range.max - size, max: range.max },
        }
    }
}

/// Two-dimensional alignment: the horizontal alignment first, the vertical
/// one second.
#[derive(Clone, Copy, Debug)]
pub struct Align2(pub [Align; 2]);

impl PartialEq for Align2 {
    fn eq(&self, other: &Self) -> (r: bool) {
        self.0[0] == other.0[0] && self.0[1] == other.0[1]
    }
}

impl vstd::std_specs::cmp::PartialEqSpecImpl for Align2 {
    open spec fn obeys_eq_spec() -> bool {
        true
    }

    open spec fn eq_spec(&self, other: &Align2) -> bool {
        self.0[0] == other.0[0] && self.0[1] == other.0[1]
    }
}

impl Align2 {
    /// The alignment along the X (horizontal) axis.
    pub fn x(self) -> (r: Align)
        ensures
            r == self.0[0],
    {
        self.0[0]
    }

    /// The alignment along the Y (vertical) axis.
    pub fn y(self) -> (r: Align)
        ensures
            r == self.0[1],
    {
        self.0[1]
    }

    /// `-1`, `0`, or `+1` for each axis.
    pub fn to_sign(self) -> (r: Vec2)
        ensures
            r.x == match self.0[0] {
                Align::Min => -1int,
                Align::Center => 0int,
                Align::Max => 1int,
            },
            r.y == match self.0[1] {
                Align::Min => -1int,
                Align::Center => 0int,
                Align::Max => 1int,
            },
    {
        Vec2 { x: self.x().to_sign(), y: self.y().to_sign() }
    }

    /// Flip on the x-axis.
    pub fn flip_x(self) -> (r: Self)
        ensures
            r.0[0] == spec_flip(self.0[0]),
            r.0[1] == self.0[1],
    {
        Align2([self.x().flip(), self.y()])
    }

    /// Flip on the y-axis.
    pub fn flip_y(self) -> (r: Self)
        ensures
            r.0[0] == self.0[0],
            r.0[1] == spec_flip(self.0[1]),
    {
        Align2([self.x(), self.y().flip()])
    }

    /// Flip on both axes.
    pub fn flip(self) -> (r: Self)
        ensures
            r.0[0] == spec_flip(self.0[0]),
            r.0[1] == spec_flip(self.0[1]),
    {
        Align2([self.x().flip(), self.y().flip()])
    }

    /// Anchor a rectangle by this alignment: the returned rectangle has the
    /// same size, and its origin is pulled back so that the anchored corner
    /// (or center) lands on the given rectangle's origin.
    pub fn anchor_rect(self, rect: Rect) -> (r: Rect)
        requires
            rect.ok(),
        ensures
            r.min.x == spec_anchor_origin(
                self.0[0],
                rect.min.x as int,
                rect.max.x - rect.min.x,
            ),
            r.min.y == spec_anchor_origin(
                self.0[1],
                rect.min.y as int,
                rect.max.y - rect.min.y,
            ),
            r.max.x == r.min.x + (rect.max.x - rect.min.x),
            r.max.y == r.min.y + (rect.max.y - rect.min.y),
    {
        let size = rect.size();
        let x = match self.x() {
            Align::Min => rect.left(),
            Align::Center => rect.left() - div2(size.x),
            Align::Max => rect.left() - size.x,
        };
        let y = match self.y() {
            Align::Min => rect.top(),
            Align::Center => rect.top() - div2(size.y),
            Align::Max => rect.top() - size.y,
        };
        Rect {
            min: Pos2 { x, y },
            max: Pos2 { x: x + size.x, y: y + size.y },
        }
    }

    /// Position a rectangle of the given size around `pos`: the corner (or
    /// center) named by this alignment ends up at `pos`.
    pub fn anchor_size(self, pos: Pos2, size: Vec2) -> (r: Rect)
        requires
            pos.ok(),
            size.ok(),
        ensures
            r.min.x == spec_anchor_origin(self.0[0], pos.x as int, size.x as int),
            r.min.y == spec_anchor_origin(self.0[1], pos.y as int, size.y as int),
            r.max.x == r.min.x + size.x,
            r.max.y == r.min.y + size.y,
    {
        let x = match self.x() {
            Align::Min => pos.x,
            Align::Center => pos.x - div2(size.x),
            Align::Max => pos.x - size.x,
        };
        let y = match self.y() {
            Align::Min => pos.y,
            Align::Center => pos.y - div2(size.y),
            Align::Max => pos.y - size.y,
        };
        Rect {
            min: Pos2 { x, y },
            max: Pos2 { x: x + size.x, y: y + size.y },
        }
    }

    /// Place a size within a frame according to this alignment, axis by axis.
    pub fn align_size_within_rect(self, size: Vec2, frame: Rect) -> (r: Rect)
        requires
            size.ok(),
            frame.ok(),
        ensures
            r.min.x == spec_aligned_start(
                self.0[0],
                frame.min.x as int,
                frame.max.x as int,
                size.x as int,
            ),
            r.min.y == spec_aligned_start(
                self.0[1],
                frame.min.y as int,
                frame.max.y as int,
                size.y as int,
            ),
            r.max.x == r.min.x + size.x,
            r.max.y == r.min.y + size.y,
    {
        let x_range = self.x().align_size_within_range(size.x, frame.x_range());
        let y_range = self.y().align_size_within_range(size.y, frame.y_range());
        Rect::from_x_y_ranges(x_range, y_range)
    }

    /// The point on the frame's edge or center selected by this alignment.
    pub fn pos_in_rect(self, frame: &Rect) -> (r: Pos2)
        requires
            frame.ok(),
        ensures
            r.x == match self.0[0] {
                Align::Min => frame.min.x as int,
                Align::Center => spec_div2(frame.min.x + frame.max.x),
                Align::Max => frame.max.x as int,
            },
            r.y == match self.0[1] {
                Align::Min => frame.min.y as int,
                Align::Center => spec_div2(frame.min.y + frame.max.y),
                Align::Max => frame.max.y as int,
            },
    {
        let center = frame.center();
        let x = match self.x() {
            Align::Min => frame.left(),
            Align::Center => center.x,
            Align::Max => frame.right(),
        };
        let y = match self.y() {
            Align::Min => frame.top(),
            Align::Center => center.y,
            Align::Max => frame.bottom(),
        };
        pos2(x, y)
    }
}

/// Allocate a rectangle of the given size centered inside `frame`. If `size`
/// is bigger than the frame, the result sticks out on both sides.
pub fn center_size_in_rect(size: Vec2, frame: Rect) -> (r: Rect)
    requires
        size.ok(),
        frame.ok(),
    ensures
        r.min.x == spec_aligned_start(
            Align::Center,
            frame.min.x as int,
            frame.max.x as int,
            size.x as int,
        ),
        r.min.y == spec_aligned_start(
            Align::Center,
            frame.min.y as int,
            frame.max.y as int,
            size.y as int,
        ),
        r.max.x == r.min.x + size.x,
        r.max.y == r.min.y + size.y,
{
    Align2([Align::Center, Align::Center]).align_size_within_rect(size, frame)
}

} // verus!
