//! A random incremental packer of axis-aligned rectangles.
//!
//! Candidates are drawn at random inside a fixed boundary and are kept only
//! when a validator accepts them: either a pairwise overlap test against the
//! rectangles kept so far, or a scan of a raster occupancy buffer in which
//! forbidden regions and earlier rectangles are burned.

pub mod canvas;
pub mod capture;
pub mod error;
pub mod geometry;
pub mod occupancy;
pub mod packer;
pub mod random;

pub use capture::captured_frame_path;
pub use error::PackerError;
pub use geometry::Boundary;
pub use geometry::Footprint;
pub use geometry::Rectangle;
pub use occupancy::ForbiddenRegion;
pub use occupancy::OccupancyBuffer;
pub use packer::PlacementValidator;
pub use packer::RectanglePacker;
pub use random::random_rectangle;
pub use random::SizeRange;
