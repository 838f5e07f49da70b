//! The pixel grid behind the occupancy buffer.
//!
//! The grid is an `RgbaImage` of the `image` crate, and forbidden regions are
//! rasterised by `imageproc`. Verus does not look inside either crate: every
//! function in this file that touches the image is believed by its contract,
//! which states what the crates' sources show.

use imageproc::drawing::draw_filled_ellipse_mut;
use imageproc::image::ImageBuffer;
use imageproc::image::Rgba;
use vstd::prelude::*;

verus! {

/// Packed RGBA colour of one raster cell: red in the highest byte, then
/// green, blue, and alpha in the lowest.
pub type Color = u32;

/// Colour of a free cell.
pub const BACKGROUND_COLOR: Color = 0x0000_00FF;

/// Colour of the interior of an accepted rectangle.
pub const RECT_FILL_COLOR: Color = 0xFF00_00FF;

/// Colour of the one-cell border of an accepted rectangle.
pub const RECT_STROKE_COLOR: Color = 0x00FF_00FF;

/// Colour of a forbidden cell. Borders of accepted rectangles share it.
pub const RECT_HIDE_COLOR: Color = 0x00FF_00FF;

/// Largest magnitude of an ellipse radius that can be rasterised.
pub const MAX_RADIUS: i32 = 46_339;

/// Largest magnitude of an ellipse centre coordinate that can be rasterised.
pub const MAX_CENTER: i32 = 1_073_741_824;

/// An `RgbaImage` of the `image` crate: an `ImageBuffer` of `Rgba<u8>` pixels
/// over a vector of bytes, of fixed size. Verus does not see inside it; its
/// pixels are reached only through the functions of this file.
#[verifier::external_body]
pub struct PixelGrid {
    image: ImageBuffer<Rgba<u8>, Vec<u8>>,
}

/// What a grid holds: the colour of the pixel at each `(column, row)`.
pub uninterp spec fn grid_cells(grid: PixelGrid) -> Map<(int, int), Color>;

/// The `(width, height)` that a grid was made with, in cells.
pub uninterp spec fn grid_dimensions(grid: PixelGrid) -> (nat, nat);

/// The cells that `imageproc::drawing::draw_filled_ellipse_mut` leaves behind
/// when both radii are `radius`: it then fills a circle, in whole numbers only.
pub uninterp spec fn filled_circle(
    cells: Map<(int, int), Color>,
    width: nat,
    height: nat,
    center_col: int,
    center_row: int,
    radius: int,
    color: Color,
) -> Map<(int, int), Color>;

/// The coordinate is small enough to pass through a 32-bit float unchanged.
pub open spec fn exact_in_float(coordinate: int) -> bool {
    -16_777_216 <= coordinate <= 16_777_216
}

/// The rows in which a filled ellipse is certain to paint the column of its
/// centre. With a height radius of zero or more these are all the rows from
/// one end of the vertical axis to the other. With a negative height radius
/// they are the two ends alone, and none at all where both radii are equal.
pub open spec fn on_painted_axis(
    center_row: int,
    width_radius: int,
    height_radius: int,
    row: int,
) -> bool {
    if height_radius >= 0 {
        center_row - height_radius <= row <= center_row + height_radius
    } else {
        &&& width_radius != height_radius
        &&& row == center_row + height_radius || row == center_row - height_radius
    }
}

/// One of the four bytes of a colour, in the order red, green, blue, alpha.
pub open spec fn channel(color: Color, index: int) -> u8 {
    if index == 0 {
        (color / 0x100_0000) as u8
    } else if index == 1 {
        ((color / 0x1_0000) % 0x100) as u8
    } else if index == 2 {
        ((color / 0x100) % 0x100) as u8
    } else {
        (color % 0x100) as u8
    }
}

/// The cells of a grid as bytes: rows from the top, cells from the left, four
/// bytes per cell.
pub open spec fn packed_samples(cells: Map<(int, int), Color>, width: nat, height: nat) -> Seq<u8> {
    Seq::new(
        4 * width * height,
        |i: int| channel(cells[((i / 4) % (width as int), (i / 4) / (width as int))], i % 4),
    )
}

/// `ImageBuffer::from_pixel`: a new image of the given size in which every
/// pixel is `color`. The call panics when the byte count does not fit a
/// vector, which `requires` rules out.
#[verifier::external_body]
pub(crate) fn solid_grid(width: u32, height: u32, color: Color) -> (grid: PixelGrid)
    requires
        width * height * 4 <= isize::MAX,
    ensures
        grid_dimensions(grid) == (width as nat, height as nat),
        grid_cells(grid) == Map::new(
            |k: (int, int)| 0 <= k.0 < width && 0 <= k.1 < height,
            |k: (int, int)| color,
        ),
{
    PixelGrid { image: ImageBuffer::from_pixel(width, height, Rgba(color.to_be_bytes())) }
}

/// `ImageBuffer::dimensions`: the width and height the image was made with.
/// The image has a pixel at exactly the coordinates below them.
#[verifier::external_body]
pub(crate) fn grid_size(grid: &PixelGrid) -> (size: (u32, u32))
    ensures
        (size.0 as nat, size.1 as nat) == grid_dimensions(*grid),
        forall|k: (int, int)| #[trigger]
            grid_cells(*grid).dom().contains(k) <==> 0 <= k.0 < size.0 && 0 <= k.1 < size.1,
{
    grid.image.dimensions()
}

/// `ImageBuffer::get_pixel`: the pixel at `(col, row)`. The call panics
/// outside the image, which `requires` rules out.
#[verifier::external_body]
pub(crate) fn cell_at(grid: &PixelGrid, col: u32, row: u32) -> (color: Color)
    requires
        col < grid_dimensions(*grid).0,
        row < grid_dimensions(*grid).1,
    ensures
        color == grid_cells(*grid)[(col as int, row as int)],
{
    u32::from_be_bytes(grid.image.get_pixel(col, row).0)
}

/// `ImageBuffer::put_pixel`: overwrites the pixel at `(col, row)` and nothing
/// else. The call panics outside the image, which `requires` rules out.
#[verifier::external_body]
pub(crate) fn paint_cell(grid: &mut PixelGrid, col: u32, row: u32, color: Color)
    requires
        col < grid_dimensions(*old(grid)).0,
        row < grid_dimensions(*old(grid)).1,
    ensures
        grid_dimensions(*final(grid)) == grid_dimensions(*old(grid)),
        grid_cells(*final(grid)) == grid_cells(*old(grid)).insert((col as int, row as int), color),
{
    grid.image.put_pixel(col, row, Rgba(color.to_be_bytes()))
}

/// `imageproc::drawing::draw_filled_ellipse_mut`: fills as much of an
/// axis-aligned ellipse as lies inside the image. The crate only ever writes
/// `color`, and only to pixels of the image, so the size and the set of cells
/// are kept and every cell keeps its colour or takes `color`. It paints one
/// horizontal run through the centre column for each row it visits, starting
/// at the ends of the vertical axis and stepping one row at a time to the
/// centre, so the cells of that column named by `on_painted_axis` take
/// `color` where they lie inside the image. With equal radii it fills a
/// circle in whole numbers, and the cells are those named by `filled_circle`.
/// With unequal radii it decides in floating point how far each run reaches,
/// and no more is claimed. The crate squares the radii and offsets the centre
/// in 32-bit arithmetic, and it compares coordinates with the width and the
/// height of the image as 32-bit signed numbers, so `requires` keeps all of
/// them small enough for that.
#[verifier::external_body]
pub(crate) fn paint_ellipse(
    grid: &mut PixelGrid,
    center_col: i32,
    center_row: i32,
    width_radius: i32,
    height_radius: i32,
    color: Color,
)
    requires
        -MAX_CENTER <= center_col <= MAX_CENTER,
        -MAX_CENTER <= center_row <= MAX_CENTER,
        -MAX_RADIUS <= width_radius <= MAX_RADIUS,
        -MAX_RADIUS <= height_radius <= MAX_RADIUS,
        grid_dimensions(*old(grid)).0 <= i32::MAX,
        grid_dimensions(*old(grid)).1 <= i32::MAX,
    ensures
        grid_dimensions(*final(grid)) == grid_dimensions(*old(grid)),
        grid_cells(*final(grid)).dom() == grid_cells(*old(grid)).dom(),
        forall|k: (int, int)|
            #![trigger grid_cells(*final(grid))[k]]
            grid_cells(*final(grid))[k] == grid_cells(*old(grid))[k] || grid_cells(*final(grid))[k]
                == color,
        forall|row: int|
            #![trigger grid_cells(*final(grid))[(center_col as int, row)]]
            {
                &&& on_painted_axis(
                    center_row as int,
                    width_radius as int,
                    height_radius as int,
                    row,
                )
                &&& exact_in_float(center_col as int) && exact_in_float(row)
                &&& 0 <= center_col < grid_dimensions(*old(grid)).0
                &&& 0 <= row < grid_dimensions(*old(grid)).1
            } ==> grid_cells(*final(grid))[(center_col as int, row)] == color,
        width_radius == height_radius ==> grid_cells(*final(grid)) == filled_circle(
            grid_cells(*old(grid)),
            grid_dimensions(*old(grid)).0,
            grid_dimensions(*old(grid)).1,
            center_col as int,
            center_row as int,
            width_radius as int,
            color,
        ),
{
    draw_filled_ellipse_mut(
        &mut grid.image,
        (center_col, center_row),
        width_radius,
        height_radius,
        Rgba(color.to_be_bytes()),
    )
}

/// `ImageBuffer::as_raw`: the bytes of the image, which was made by
/// `from_pixel` and so holds exactly four bytes per cell, row by row.
#[verifier::external_body]
pub(crate) fn grid_samples(grid: &PixelGrid) -> (samples: &[u8])
    ensures
        samples@ == packed_samples(
            grid_cells(*grid),
            grid_dimensions(*grid).0,
            grid_dimensions(*grid).1,
        ),
{
    grid.image.as_raw().as_slice()
}

} // verus!
