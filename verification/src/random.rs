//! The candidate generator: rectangles drawn at random inside a boundary.
//!
//! The random source is the `SmallRng` that `nannou` hands on, owned by the caller
//! and handed to each draw, so that a seeded source replays the same run.

use crate::geometry::Boundary;
use crate::geometry::Rectangle;
use nannou::rand::rngs::SmallRng;
use nannou::rand::Rng;
use vstd::prelude::*;

verus! {

/// Smallest width and height of a candidate drawn with the standard sizes.
pub const MIN_RECT_SIZE: u32 = 4;

/// Bound that the width and height of such a candidate stay below.
pub const MAX_RECT_SIZE: u32 = 60;

/// `rand::rngs::SmallRng`, as `nannou` hands it on: a seedable generator
/// whose state Verus does not see.
#[verifier::external_type_specification]
#[verifier::external_body]
pub struct ExSmallRng(SmallRng);

/// `rand::Rng::gen_range` on an inclusive range of integers: some value of
/// the range. Which one depends on the state of the source, of which nothing
/// is claimed. The call panics on an empty range, which `requires` rules out.
#[verifier::external_body]
pub(crate) fn uniform_between(rng: &mut SmallRng, low: i64, high: i64) -> (value: i64)
    requires
        low <= high,
    ensures
        low <= value <= high,
{
    rng.gen_range(low..=high)
}

/// The sizes a candidate may have: `min <= size < max` for width and height alike.
#[derive(Clone, Copy, Debug, PartialEq, Eq, Structural)]
pub struct SizeRange {
    pub min: u32,
    pub max: u32,
}

impl SizeRange {
    /// The range is not empty and holds no zero size.
    pub open spec fn valid(self) -> bool {
        0 < self.min < self.max
    }

    /// The sizes used when none are chosen.
    pub open spec fn standard() -> SizeRange {
        SizeRange { min: MIN_RECT_SIZE, max: MAX_RECT_SIZE }
    }

    /// Whether the range is not empty and holds no zero size.
    pub fn is_valid(&self) -> (ok: bool)
        ensures
            ok == self.valid(),
    {
        0 < self.min && self.min < self.max
    }
}

impl Default for SizeRange {
    fn default() -> (range: SizeRange)
        ensures
            range == SizeRange::standard(),
    {
        SizeRange { min: MIN_RECT_SIZE, max: MAX_RECT_SIZE }
    }
}

/// A coordinate of the boundary pulled toward the origin by the factor 10/11,
/// rounded toward zero. Candidates are centred between the shrunk edges,
/// which keeps them away from the rim of the boundary.
pub open spec fn shrunk(edge: int) -> int {
    if edge >= 0 {
        edge * 10 / 11
    } else {
        -((-edge) * 10 / 11)
    }
}

/// What holds of every candidate drawn for a boundary and a range of sizes.
pub open spec fn candidate_for(boundary: Boundary, sizes: SizeRange, rect: Rectangle) -> bool {
    &&& shrunk(boundary.left as int) <= rect.x <= shrunk(boundary.right as int)
    &&& shrunk(boundary.bottom as int) <= rect.y <= shrunk(boundary.top as int)
    &&& sizes.min <= rect.width < sizes.max
    &&& sizes.min <= rect.height < sizes.max
}

/// Computes the shrunk position of an edge of the boundary.
pub fn shrink(edge: i32) -> (position: i64)
    ensures
        position == shrunk(edge as int),
        i32::MIN <= position <= i32::MAX,
{
    let wide: i64 = edge as i64;
    if wide >= 0 {
        wide * 10 / 11
    } else {
        -((-wide) * 10 / 11)
    }
}

/// Draws one candidate: its centre between the shrunk edges of the boundary,
/// its width and its height each within the sizes, all four independent.
pub fn random_rectangle(boundary: &Boundary, rng: &mut SmallRng, sizes: SizeRange) -> (rect:
    Rectangle)
    requires
        boundary.valid(),
        sizes.valid(),
    ensures
        candidate_for(*boundary, sizes, rect),
        rect.valid(),
{
    let x = uniform_between(rng, shrink(boundary.left), shrink(boundary.right));
    let y = uniform_between(rng, shrink(boundary.bottom), shrink(boundary.top));
    let width = uniform_between(rng, sizes.min as i64, sizes.max as i64 - 1);
    let height = uniform_between(rng, sizes.min as i64, sizes.max as i64 - 1);
    Rectangle { x: x as i32, y: y as i32, width: width as u32, height: height as u32 }
}

/// The shrunk edges of a boundary that holds the origin lie inside it, so
/// the centre of every candidate drawn for such a boundary does too.
pub proof fn candidate_center_lies_in_boundary(
    boundary: Boundary,
    sizes: SizeRange,
    rect: Rectangle,
)
    requires
        boundary.left <= 0 <= boundary.right,
        boundary.bottom <= 0 <= boundary.top,
        candidate_for(boundary, sizes, rect),
    ensures
        boundary.left <= rect.x <= boundary.right,
        boundary.bottom <= rect.y <= boundary.top,
{
}

} // verus!
