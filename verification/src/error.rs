//! The conditions under which the packer refuses to work.

use vstd::prelude::*;

verus! {

/// Why a buffer or a packer could not be built, or a footprint not be used.
#[derive(Clone, Copy, Debug, PartialEq, Eq, Structural)]
pub enum PackerError {
    /// The boundary has no width or no height.
    EmptyBoundary,
    /// A raster of the boundary's size cannot be held in memory, or is wider
    /// or higher than regions can be drawn on.
    BoundaryTooLarge,
    /// A forbidden region has a centre or a radius beyond what can be rasterised.
    RegionOutOfRange,
    /// The occupancy buffer does not have the size of the boundary.
    BufferMismatch,
    /// A footprint reaches outside the occupancy buffer.
    OutOfBounds,
}

} // verus!
