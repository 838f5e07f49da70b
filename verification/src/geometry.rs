//! Rectangles in logical units, the packing boundary, and the raster footprint
//! that a rectangle covers once it is mapped onto the pixel grid.
//!
//! Logical coordinates have their origin at the centre of the boundary and `y`
//! grows upward. Raster coordinates have their origin at the top-left cell and
//! rows grow downward.

use vstd::prelude::*;

verus! {

/// An axis-aligned rectangle in logical units.
#[derive(Clone, Copy, Debug, PartialEq, Eq, Structural)]
pub struct Rectangle {
    pub x: i32,
    pub y: i32,
    pub width: u32,
    pub height: u32,
}

/// The fixed region inside which rectangles are packed.
#[derive(Clone, Copy, Debug, PartialEq, Eq, Structural)]
pub struct Boundary {
    pub left: i32,
    pub right: i32,
    pub bottom: i32,
    pub top: i32,
}

/// An inclusive block of raster cells: columns `left..=right`, rows `top..=bottom`.
#[derive(Clone, Copy, Debug, PartialEq, Eq, Structural)]
pub struct Footprint {
    pub left: i64,
    pub right: i64,
    pub top: i64,
    pub bottom: i64,
}

impl Boundary {
    /// Horizontal extent in logical units.
    pub open spec fn w(self) -> int {
        self.right - self.left
    }

    /// Vertical extent in logical units.
    pub open spec fn h(self) -> int {
        self.top - self.bottom
    }

    /// A boundary is usable when both extents are positive.
    pub open spec fn valid(self) -> bool {
        self.left < self.right && self.bottom < self.top
    }

    /// Horizontal extent in logical units.
    pub fn width(&self) -> (w: i64)
        ensures
            w == self.w(),
    {
        self.right as i64 - self.left as i64
    }

    /// Vertical extent in logical units.
    pub fn height(&self) -> (h: i64)
        ensures
            h == self.h(),
    {
        self.top as i64 - self.bottom as i64
    }

    /// Whether both extents are positive.
    pub fn is_valid(&self) -> (ok: bool)
        ensures
            ok == self.valid(),
    {
        self.left < self.right && self.bottom < self.top
    }
}

impl Footprint {
    /// The block holds at least one cell.
    pub open spec fn wf(self) -> bool {
        self.left <= self.right && self.top <= self.bottom
    }

    /// The cell at `(col, row)` belongs to the block.
    pub open spec fn contains(self, col: int, row: int) -> bool {
        self.left <= col <= self.right && self.top <= row <= self.bottom
    }

    /// A cell of the block that lies on its first or last column or row.
    pub open spec fn on_border(self, col: int, row: int) -> bool {
        self.contains(col, row) && (col == self.left || col == self.right || row == self.top || row
            == self.bottom)
    }

    /// A cell of the block that is not on its border.
    pub open spec fn strictly_inside(self, col: int, row: int) -> bool {
        self.left < col < self.right && self.top < row < self.bottom
    }

    /// Every cell of `self` is a cell of `outer`.
    pub open spec fn within(self, outer: Footprint) -> bool {
        outer.left <= self.left && self.right <= outer.right && outer.top <= self.top && self.bottom
            <= outer.bottom
    }
}

impl Rectangle {
    /// A rectangle has positive width and height.
    pub open spec fn valid(self) -> bool {
        self.width > 0 && self.height > 0
    }

    /// The half-open boxes `[x, x + width) x [y, y + height)` of the two
    /// rectangles intersect on both axes.
    pub open spec fn spec_overlaps(self, other: Rectangle) -> bool {
        &&& self.x + self.width > other.x
        &&& other.x + other.width > self.x
        &&& self.y + self.height > other.y
        &&& other.y + other.height > self.y
    }

    /// Raster centre of the rectangle: the logical origin maps to the middle
    /// of the boundary and the vertical axis is flipped.
    pub open spec fn spec_to_raster(self, boundary: Boundary) -> (int, int) {
        (boundary.w() / 2 + self.x, boundary.h() / 2 - self.y)
    }

    /// The cells covered by the rectangle, grown by `padding` cells on every side.
    pub open spec fn spec_footprint(self, boundary: Boundary, padding: int) -> Footprint {
        let center = self.spec_to_raster(boundary);
        Footprint {
            left: (center.0 - self.width / 2 - padding) as i64,
            right: (center.0 + self.width / 2 + padding) as i64,
            top: (center.1 - self.height / 2 - padding) as i64,
            bottom: (center.1 + self.height / 2 + padding) as i64,
        }
    }

    /// Whether width and height are positive.
    pub fn is_valid(&self) -> (ok: bool)
        ensures
            ok == self.valid(),
    {
        self.width > 0 && self.height > 0
    }

    /// Whether two rectangles collide. Rectangles that merely share an edge do not.
    pub fn overlaps(&self, other: &Rectangle) -> (hit: bool)
        ensures
            hit == self.spec_overlaps(*other),
    {
        let ax: i64 = self.x as i64;
        let ay: i64 = self.y as i64;
        let bx: i64 = other.x as i64;
        let by: i64 = other.y as i64;
        ax + self.width as i64 > bx && bx + other.width as i64 > ax && ay + self.height as i64 > by
            && by + other.height as i64 > ay
    }

    /// Maps the centre of the rectangle to raster coordinates `(column, row)`.
    pub fn to_raster(&self, boundary: &Boundary) -> (center: (i64, i64))
        requires
            boundary.valid(),
        ensures
            center.0 == self.spec_to_raster(*boundary).0,
            center.1 == self.spec_to_raster(*boundary).1,
    {
        let origin_col: i64 = boundary.width() / 2;
        let origin_row: i64 = boundary.height() / 2;
        (origin_col + self.x as i64, origin_row - self.y as i64)
    }

    /// The raster footprint of the rectangle, grown by `padding` cells on every side.
    pub fn footprint(&self, boundary: &Boundary, padding: u32) -> (fp: Footprint)
        requires
            boundary.valid(),
        ensures
            fp == self.spec_footprint(*boundary, padding as int),
            fp.wf(),
    {
        let center = self.to_raster(boundary);
        let half_width: i64 = (self.width / 2) as i64;
        let half_height: i64 = (self.height / 2) as i64;
        let pad: i64 = padding as i64;
        Footprint {
            left: center.0 - half_width - pad,
            right: center.0 + half_width + pad,
            top: center.1 - half_height - pad,
            bottom: center.1 + half_height + pad,
        }
    }
}

/// Overlap does not depend on the order of the two rectangles.
pub proof fn overlap_is_symmetric(a: Rectangle, b: Rectangle)
    ensures
        a.spec_overlaps(b) == b.spec_overlaps(a),
{
}

/// A rectangle of positive width and height overlaps itself.
pub proof fn overlap_is_reflexive(a: Rectangle)
    requires
        a.valid(),
    ensures
        a.spec_overlaps(a),
{
}

/// Two rectangles do not overlap when one ends exactly where the other
/// begins, on either axis.
pub proof fn touching_edges_do_not_overlap(a: Rectangle, b: Rectangle)
    requires
        a.x + a.width == b.x || a.y + a.height == b.y,
    ensures
        !a.spec_overlaps(b),
        !b.spec_overlaps(a),
{
}

/// A rectangle at the logical origin maps to the middle of the raster.
pub proof fn origin_maps_to_raster_center(rect: Rectangle, boundary: Boundary)
    requires
        rect.x == 0,
        rect.y == 0,
    ensures
        rect.spec_to_raster(boundary) == (boundary.w() / 2, boundary.h() / 2),
{
}

/// The edges of a footprint lie half the sides of the rectangle, rounded
/// down, and the padding away from the raster centre of the rectangle; no
/// edge is cut short by the width of the numbers that hold it.
pub proof fn footprint_surrounds_center(rect: Rectangle, boundary: Boundary, padding: int)
    requires
        0 <= padding <= u32::MAX,
    ensures
        ({
            let center = rect.spec_to_raster(boundary);
            let fp = rect.spec_footprint(boundary, padding);
            &&& fp.left == center.0 - rect.width / 2 - padding
            &&& fp.right == center.0 + rect.width / 2 + padding
            &&& fp.top == center.1 - rect.height / 2 - padding
            &&& fp.bottom == center.1 + rect.height / 2 + padding
            &&& fp.contains(center.0, center.1)
        }),
{
}

/// A footprint grown by more padding contains the footprint grown by less.
pub proof fn footprint_grows_with_padding(
    rect: Rectangle,
    boundary: Boundary,
    small: int,
    large: int,
)
    requires
        0 <= small <= large <= u32::MAX,
    ensures
        rect.spec_footprint(boundary, small).within(rect.spec_footprint(boundary, large)),
        rect.spec_footprint(boundary, small).wf(),
{
}

} // verus!
