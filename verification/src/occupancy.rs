//! The raster occupancy buffer: one colour per cell, forbidden regions marked
//! at construction, accepted rectangles burned in as they are placed.

use crate::canvas::cell_at;
use crate::canvas::exact_in_float;
use crate::canvas::filled_circle;
use crate::canvas::grid_cells;
use crate::canvas::on_painted_axis;
use crate::canvas::grid_dimensions;
use crate::canvas::grid_samples;
use crate::canvas::grid_size;
use crate::canvas::packed_samples;
use crate::canvas::paint_cell;
use crate::canvas::paint_ellipse;
use crate::canvas::solid_grid;
use crate::canvas::Color;
use crate::canvas::PixelGrid;
use crate::canvas::BACKGROUND_COLOR;
use crate::canvas::MAX_CENTER;
use crate::canvas::MAX_RADIUS;
use crate::canvas::RECT_FILL_COLOR;
use crate::canvas::RECT_HIDE_COLOR;
use crate::canvas::RECT_STROKE_COLOR;
use crate::error::PackerError;
use crate::geometry::Boundary;
use crate::geometry::Footprint;
use crate::geometry::Rectangle;
use vstd::prelude::*;

verus! {

/// An elliptical zone of the raster, given by its centre cell and its radii
/// in cells. A region marks its cells as forbidden; an exempt region gives
/// its cells back to the background, which carves a hole into the regions
/// listed before it.
#[derive(Clone, Copy, Debug, PartialEq, Eq, Structural)]
pub struct ForbiddenRegion {
    pub center_col: i32,
    pub center_row: i32,
    pub width_radius: i32,
    pub height_radius: i32,
    pub exempt: bool,
}

impl ForbiddenRegion {
    /// The region is small enough to be rasterised.
    pub open spec fn valid(self) -> bool {
        &&& -MAX_CENTER <= self.center_col <= MAX_CENTER
        &&& -MAX_CENTER <= self.center_row <= MAX_CENTER
        &&& -MAX_RADIUS <= self.width_radius <= MAX_RADIUS
        &&& -MAX_RADIUS <= self.height_radius <= MAX_RADIUS
    }

    /// The region is a circle.
    pub open spec fn round(self) -> bool {
        self.width_radius == self.height_radius
    }

    /// The colour the region paints its cells with.
    pub open spec fn color(self) -> Color {
        if self.exempt {
            BACKGROUND_COLOR
        } else {
            RECT_HIDE_COLOR
        }
    }

    /// Whether the region is small enough to be rasterised.
    pub fn is_valid(&self) -> (ok: bool)
        ensures
            ok == self.valid(),
    {
        -MAX_CENTER <= self.center_col && self.center_col <= MAX_CENTER && -MAX_CENTER
            <= self.center_row && self.center_row <= MAX_CENTER && -MAX_RADIUS
            <= self.width_radius && self.width_radius <= MAX_RADIUS && -MAX_RADIUS
            <= self.height_radius && self.height_radius <= MAX_RADIUS
    }
}

/// The mathematical content of an occupancy buffer.
pub struct Raster {
    pub width: nat,
    pub height: nat,
    pub cells: Map<(int, int), Color>,
}

impl Raster {
    /// A raster in which every cell is background.
    pub open spec fn blank(width: nat, height: nat) -> Raster {
        Raster {
            width,
            height,
            cells: Map::new(
                |k: (int, int)| 0 <= k.0 < width && 0 <= k.1 < height,
                |k: (int, int)| BACKGROUND_COLOR,
            ),
        }
    }

    /// The raster has a cell at exactly the coordinates below its width and height.
    pub open spec fn wf(self) -> bool {
        forall|k: (int, int)| #[trigger]
            self.cells.dom().contains(k) <==> 0 <= k.0 < self.width && 0 <= k.1 < self.height
    }

    /// The colour of the cell at `(col, row)`.
    pub open spec fn cell(self, col: int, row: int) -> Color {
        self.cells[(col, row)]
    }

    /// The footprint is not empty and lies inside the raster.
    pub open spec fn covers(self, fp: Footprint) -> bool {
        fp.wf() && 0 <= fp.left && fp.right < self.width && 0 <= fp.top && fp.bottom < self.height
    }

    /// Every cell of the footprint has the colour of its top-left cell.
    pub open spec fn uniform(self, fp: Footprint) -> bool {
        forall|col: int, row: int|
            fp.contains(col, row) ==> #[trigger] self.cell(col, row) == self.cell(
                fp.left as int,
                fp.top as int,
            )
    }

    /// The footprint lies in one region of a single colour that is not the
    /// forbidden one. This asks more than that no rectangle be in the way: a
    /// footprint across two shades of background is not open. It also asks
    /// less: a footprint wholly inside the fill of a rectangle is open.
    pub open spec fn open_at(self, fp: Footprint) -> bool {
        self.cell(fp.left as int, fp.top as int) != RECT_HIDE_COLOR && self.uniform(fp)
    }

    /// The answer of the openness test for a footprint.
    pub open spec fn openness(self, fp: Footprint) -> Result<bool, PackerError> {
        if self.covers(fp) {
            Ok(self.open_at(fp))
        } else {
            Err(PackerError::OutOfBounds)
        }
    }

    /// The colour a stamp gives to a cell of its footprint.
    pub open spec fn stamp_color(fp: Footprint, col: int, row: int) -> Color {
        if fp.on_border(col, row) {
            RECT_STROKE_COLOR
        } else {
            RECT_FILL_COLOR
        }
    }

    /// The raster after a rectangle with this footprint is burned in.
    pub open spec fn stamped(self, fp: Footprint) -> Raster {
        Raster {
            width: self.width,
            height: self.height,
            cells: Map::new(
                |k: (int, int)| self.cells.dom().contains(k) || fp.contains(k.0, k.1),
                |k: (int, int)|
                    if fp.contains(k.0, k.1) {
                        Self::stamp_color(fp, k.0, k.1)
                    } else {
                        self.cells[k]
                    },
            ),
        }
    }

    /// Every cell of the raster holds one of the colours given.
    pub open spec fn painted_in(self, first: Color, second: Color, third: Color) -> bool {
        forall|k: (int, int)|
            self.cells.dom().contains(k) ==> {
                ||| #[trigger] self.cells[k] == first
                ||| self.cells[k] == second
                ||| self.cells[k] == third
            }
    }

    /// What marking one region does to a raster. The size and the set of
    /// cells are kept, and every cell keeps its colour or takes the colour of
    /// the region. The cells of the centre column between the two ends of the
    /// region's vertical axis take that colour where they lie inside the
    /// raster; where the height radius is negative only the two ends do, and
    /// a circle of negative radius marks nothing. A circle marks exactly the
    /// cells that the rasteriser's circle covers. Of any other ellipse the
    /// rasteriser decides the remaining cells in floating point, and they are
    /// left open here.
    pub open spec fn marks(self, region: ForbiddenRegion, after: Raster) -> bool {
        &&& after.width == self.width
        &&& after.height == self.height
        &&& after.cells.dom() == self.cells.dom()
        &&& forall|col: int, row: int|
            #![trigger after.cell(col, row)]
            after.cell(col, row) == self.cell(col, row) || after.cell(col, row) == region.color()
        &&& forall|row: int|
            #![trigger after.cell(region.center_col as int, row)]
            {
                &&& on_painted_axis(
                    region.center_row as int,
                    region.width_radius as int,
                    region.height_radius as int,
                    row,
                )
                &&& exact_in_float(region.center_col as int) && exact_in_float(row)
                &&& 0 <= region.center_col < self.width
                &&& 0 <= row < self.height
            } ==> after.cell(region.center_col as int, row) == region.color()
        &&& region.round() ==> after.cells == filled_circle(
            self.cells,
            self.width,
            self.height,
            region.center_col as int,
            region.center_row as int,
            region.width_radius as int,
            region.color(),
        )
    }

    /// The rasters that the marking of the regions goes through: the first
    /// is `self`, and each region leads from one to the next.
    pub open spec fn marked_in_stages(
        self,
        regions: Seq<ForbiddenRegion>,
        stages: Seq<Raster>,
    ) -> bool {
        &&& stages.len() == regions.len() + 1
        &&& stages[0] == self
        &&& forall|i: int|
            0 <= i < regions.len() ==> stages[i].marks(#[trigger] regions[i], stages[i + 1])
    }

    /// What marking the regions one after the other does to a raster.
    pub open spec fn marks_all(self, regions: Seq<ForbiddenRegion>, after: Raster) -> bool {
        exists|stages: Seq<Raster>|
            #![trigger self.marked_in_stages(regions, stages)]
            self.marked_in_stages(regions, stages) && stages.last() == after
    }

    /// The part of a stamp that a column-by-column scan has painted when it
    /// stands at `(col, row)`.
    spec fn stamped_upto(self, fp: Footprint, col: int, row: int) -> Raster {
        Raster {
            width: self.width,
            height: self.height,
            cells: Map::new(
                |k: (int, int)|
                    self.cells.dom().contains(k) || (fp.contains(k.0, k.1) && scanned(
                        k,
                        col,
                        row,
                    )),
                |k: (int, int)|
                    if fp.contains(k.0, k.1) && scanned(k, col, row) {
                        Self::stamp_color(fp, k.0, k.1)
                    } else {
                        self.cells[k]
                    },
            ),
        }
    }
}

/// The cell comes before `(col, row)` in a scan that goes down each column
/// and takes the columns from the left.
spec fn scanned(k: (int, int), col: int, row: int) -> bool {
    k.0 < col || (k.0 == col && k.1 < row)
}

/// The raster that a grid holds.
spec fn raster_of(grid: PixelGrid) -> Raster {
    Raster {
        width: grid_dimensions(grid).0,
        height: grid_dimensions(grid).1,
        cells: grid_cells(grid),
    }
}

/// Why no buffer can be made for a boundary and a list of regions, if any reason there is.
pub open spec fn initialize_error(boundary: Boundary, regions: Seq<ForbiddenRegion>) -> Option<
    PackerError,
> {
    if !boundary.valid() {
        Some(PackerError::EmptyBoundary)
    } else if boundary.w() > i32::MAX || boundary.h() > i32::MAX || boundary.w() * boundary.h() * 4
        > isize::MAX {
        Some(PackerError::BoundaryTooLarge)
    } else if exists|i: int| 0 <= i < regions.len() && !(#[trigger] regions[i]).valid() {
        Some(PackerError::RegionOutOfRange)
    } else {
        None
    }
}

/// A grid of cell colours of the size of a boundary.
pub struct OccupancyBuffer {
    grid: PixelGrid,
}

impl View for OccupancyBuffer {
    type V = Raster;

    closed spec fn view(&self) -> Raster {
        raster_of(self.grid)
    }
}

impl OccupancyBuffer {
    /// Allocates a buffer of the size of the boundary, all background, and
    /// marks the regions in the order given. Afterwards every cell is
    /// background or forbidden. What a region covers is the rasteriser's to
    /// decide; `marks` says what is certain of it.
    pub fn initialize(boundary: &Boundary, regions: &Vec<ForbiddenRegion>) -> (result: Result<
        OccupancyBuffer,
        PackerError,
    >)
        ensures
            match result {
                Ok(buffer) => {
                    &&& initialize_error(*boundary, regions@) is None
                    &&& Raster::blank(boundary.w() as nat, boundary.h() as nat).marks_all(
                        regions@,
                        buffer@,
                    )
                    &&& buffer@.width == boundary.w()
                    &&& buffer@.height == boundary.h()
                    &&& buffer@.wf()
                    &&& buffer@.painted_in(BACKGROUND_COLOR, RECT_HIDE_COLOR, RECT_HIDE_COLOR)
                },
                Err(e) => initialize_error(*boundary, regions@) == Some(e),
            },
    {
        if !boundary.is_valid() {
            return Err(PackerError::EmptyBoundary);
        }
        let width: i64 = boundary.width();
        let height: i64 = boundary.height();
        assert(width * height <= 0xFFFF_FFFF * 0xFFFF_FFFF) by (nonlinear_arith)
            requires
                0 < width <= 0xFFFF_FFFF,
                0 < height <= 0xFFFF_FFFF,
        ;
        let bytes: u128 = (width as u128) * (height as u128) * 4;
        if width > i32::MAX as i64 || height > i32::MAX as i64 || bytes > isize::MAX as u128 {
            return Err(PackerError::BoundaryTooLarge);
        }
        let mut checked: usize = 0;
        while checked < regions.len()
            invariant
                boundary.valid(),
                boundary.w() <= i32::MAX,
                boundary.h() <= i32::MAX,
                boundary.w() * boundary.h() * 4 <= isize::MAX,
                checked <= regions.len(),
                forall|i: int| 0 <= i < checked ==> (#[trigger] regions[i]).valid(),
            decreases regions.len() - checked,
        {
            if !regions[checked].is_valid() {
                assert(!regions@[checked as int].valid());
                return Err(PackerError::RegionOutOfRange);
            }
            checked += 1;
        }
        let mut grid = solid_grid(width as u32, height as u32, BACKGROUND_COLOR);
        let ghost blank = Raster::blank(boundary.w() as nat, boundary.h() as nat);
        assert(raster_of(grid) == blank);
        let ghost mut stages: Seq<Raster> = seq![blank];
        let mut marked: usize = 0;
        while marked < regions.len()
            invariant
                marked <= regions.len(),
                forall|i: int| 0 <= i < regions.len() ==> (#[trigger] regions[i]).valid(),
                blank == Raster::blank(boundary.w() as nat, boundary.h() as nat),
                blank.marked_in_stages(regions@.take(marked as int), stages),
                stages.last() == raster_of(grid),
                raster_of(grid).width == blank.width,
                raster_of(grid).height == blank.height,
                blank.width <= i32::MAX,
                blank.height <= i32::MAX,
                raster_of(grid).wf(),
                raster_of(grid).painted_in(BACKGROUND_COLOR, RECT_HIDE_COLOR, RECT_HIDE_COLOR),
            decreases regions.len() - marked,
        {
            let region = regions[marked];
            let ghost between = raster_of(grid);
            let color = if region.exempt {
                BACKGROUND_COLOR
            } else {
                RECT_HIDE_COLOR
            };
            paint_ellipse(
                &mut grid,
                region.center_col,
                region.center_row,
                region.width_radius,
                region.height_radius,
                color,
            );
            proof {
                let earlier = regions@.take(marked as int);
                let next = regions@.take(marked + 1);
                let longer = stages.push(raster_of(grid));
                assert(between.marks(region, raster_of(grid)));
                assert forall|i: int| 0 <= i < next.len() implies longer[i].marks(
                    #[trigger] next[i],
                    longer[i + 1],
                ) by {
                    if i < marked {
                        assert(stages[i].marks(earlier[i], stages[i + 1]));
                    }
                }
                stages = longer;
            }
            marked += 1;
        }
        assert(regions@.take(marked as int) =~= regions@);
        assert(blank.marked_in_stages(regions@, stages));
        Ok(OccupancyBuffer { grid })
    }

    /// Number of columns. The buffer has a cell at exactly the coordinates
    /// below its width and height.
    pub fn width(&self) -> (w: u32)
        ensures
            w == self@.width,
            self@.wf(),
    {
        grid_size(&self.grid).0
    }

    /// Number of rows.
    pub fn height(&self) -> (h: u32)
        ensures
            h == self@.height,
            self@.wf(),
    {
        grid_size(&self.grid).1
    }

    /// The colour of one cell, or nothing outside the buffer.
    pub fn cell(&self, col: u32, row: u32) -> (color: Option<Color>)
        ensures
            color == if col < self@.width && row < self@.height {
                Some(self@.cell(col as int, row as int))
            } else {
                None
            },
    {
        let size = grid_size(&self.grid);
        if col < size.0 && row < size.1 {
            Some(cell_at(&self.grid, col, row))
        } else {
            None
        }
    }

    /// The whole buffer as bytes, four per cell, rows from the top: the form
    /// in which a display surface takes a texture.
    pub fn samples(&self) -> (bytes: &[u8])
        ensures
            bytes@ == packed_samples(self@.cells, self@.width, self@.height),
    {
        grid_samples(&self.grid)
    }

    /// Whether the footprint lies inside the buffer.
    fn covers(&self, fp: &Footprint) -> (inside: bool)
        requires
            fp.wf(),
        ensures
            inside == self@.covers(*fp),
            self@.wf(),
            self@.width <= u32::MAX,
            self@.height <= u32::MAX,
    {
        let size = grid_size(&self.grid);
        fp.left >= 0 && fp.right < size.0 as i64 && fp.top >= 0 && fp.bottom < size.1 as i64
    }

    /// Tests whether a rectangle may be placed: its footprint, grown by
    /// `padding` cells on every side, must lie in one region of a single
    /// colour that is not forbidden. A footprint that leaves the buffer is
    /// reported, not read.
    pub fn is_open(&self, rect: &Rectangle, boundary: &Boundary, padding: u32) -> (result: Result<
        bool,
        PackerError,
    >)
        requires
            boundary.valid(),
        ensures
            result == self@.openness(rect.spec_footprint(*boundary, padding as int)),
    {
        let fp = rect.footprint(boundary, padding);
        if !self.covers(&fp) {
            return Err(PackerError::OutOfBounds);
        }
        let left: u32 = fp.left as u32;
        let right: u32 = fp.right as u32;
        let top: u32 = fp.top as u32;
        let bottom: u32 = fp.bottom as u32;
        let reference = cell_at(&self.grid, left, top);
        if reference == RECT_HIDE_COLOR {
            return Ok(false);
        }
        let mut col: u32 = left;
        while col <= right
            invariant
                fp == rect.spec_footprint(*boundary, padding as int),
                self@.wf(),
                self@.width <= u32::MAX,
                self@.height <= u32::MAX,
                self@.covers(fp),
                left == fp.left,
                right == fp.right,
                top == fp.top,
                bottom == fp.bottom,
                left <= col <= right + 1,
                reference == self@.cell(left as int, top as int),
                forall|c: int, r: int|
                    left <= c < col && top <= r <= bottom ==> #[trigger] self@.cell(c, r)
                        == reference,
            decreases right + 1 - col,
        {
            let mut row: u32 = top;
            while row <= bottom
                invariant
                    fp == rect.spec_footprint(*boundary, padding as int),
                    self@.wf(),
                    self@.width <= u32::MAX,
                    self@.height <= u32::MAX,
                    self@.covers(fp),
                    left == fp.left,
                    right == fp.right,
                    top == fp.top,
                    bottom == fp.bottom,
                    left <= col <= right,
                    top <= row <= bottom + 1,
                    reference == self@.cell(left as int, top as int),
                    forall|c: int, r: int|
                        left <= c < col && top <= r <= bottom ==> #[trigger] self@.cell(c, r)
                            == reference,
                    forall|r: int|
                        top <= r < row ==> #[trigger] self@.cell(col as int, r) == reference,
                decreases bottom + 1 - row,
            {
                let current = cell_at(&self.grid, col, row);
                if current != reference {
                    assert(fp.contains(col as int, row as int));
                    assert(self@.cell(col as int, row as int) != self@.cell(
                        fp.left as int,
                        fp.top as int,
                    ));
                    return Ok(false);
                }
                row += 1;
            }
            col += 1;
        }
        assert(self@.uniform(fp));
        Ok(true)
    }

    /// Burns a rectangle into the buffer: the cells on the edge of its
    /// footprint become stroke, the cells inside become fill, whatever they
    /// held. A footprint that leaves the buffer is reported and nothing is
    /// painted.
    pub fn stamp(&mut self, rect: &Rectangle, boundary: &Boundary) -> (result: Result<
        (),
        PackerError,
    >)
        requires
            boundary.valid(),
        ensures
            match result {
                Ok(_) => old(self)@.covers(rect.spec_footprint(*boundary, 0)) && final(self)@
                    == old(self)@.stamped(rect.spec_footprint(*boundary, 0)),
                Err(e) => e == PackerError::OutOfBounds && !old(self)@.covers(
                    rect.spec_footprint(*boundary, 0),
                ) && final(self)@ == old(self)@,
            },
            final(self)@.wf(),
    {
        let fp = rect.footprint(boundary, 0);
        if !self.covers(&fp) {
            return Err(PackerError::OutOfBounds);
        }
        let left: u32 = fp.left as u32;
        let right: u32 = fp.right as u32;
        let top: u32 = fp.top as u32;
        let bottom: u32 = fp.bottom as u32;
        let ghost before = self@;
        assert(self@ == before.stamped_upto(fp, left as int, top as int)) by {
            assert(self@.cells =~= before.stamped_upto(fp, left as int, top as int).cells);
        }
        let mut col: u32 = left;
        while col <= right
            invariant
                before.width <= u32::MAX,
                before.height <= u32::MAX,
                before.covers(fp),
                left == fp.left,
                right == fp.right,
                top == fp.top,
                bottom == fp.bottom,
                left <= col <= right + 1,
                self@ == before.stamped_upto(fp, col as int, top as int),
            decreases right + 1 - col,
        {
            let mut row: u32 = top;
            while row <= bottom
                invariant
                    before.width <= u32::MAX,
                    before.height <= u32::MAX,
                    before.covers(fp),
                    left == fp.left,
                    right == fp.right,
                    top == fp.top,
                    bottom == fp.bottom,
                    left <= col <= right,
                    top <= row <= bottom + 1,
                    self@ == before.stamped_upto(fp, col as int, row as int),
                decreases bottom + 1 - row,
            {
                let on_edge = col == left || col == right || row == top || row == bottom;
                let color = if on_edge {
                    RECT_STROKE_COLOR
                } else {
                    RECT_FILL_COLOR
                };
                paint_cell(&mut self.grid, col, row, color);
                assert(self@.cells =~= before.stamped_upto(fp, col as int, row + 1).cells);
                row += 1;
            }
            assert(before.stamped_upto(fp, col as int, bottom + 1).cells
                =~= before.stamped_upto(fp, col + 1, top as int).cells);
            col += 1;
        }
        assert(before.stamped_upto(fp, right + 1, top as int).cells =~= before.stamped(fp).cells);
        Ok(())
    }
}

/// Two chains of markings of the same circles agree at every stage.
proof fn stages_agree(
    before: Raster,
    regions: Seq<ForbiddenRegion>,
    one: Seq<Raster>,
    other: Seq<Raster>,
    stage: int,
)
    requires
        forall|i: int| 0 <= i < regions.len() ==> (#[trigger] regions[i]).round(),
        before.marked_in_stages(regions, one),
        before.marked_in_stages(regions, other),
        0 <= stage <= regions.len(),
    ensures
        one[stage] == other[stage],
    decreases stage,
{
    if stage > 0 {
        stages_agree(before, regions, one, other, stage - 1);
        let region = regions[stage - 1];
        assert(one[stage - 1].marks(region, one[stage - 1 + 1]));
        assert(other[stage - 1].marks(region, other[stage - 1 + 1]));
        assert(one[stage] =~= other[stage]);
    }
}

/// Circles are marked in whole numbers, so regions that are all circles
/// leave one raster and no other: the marking is a function of the raster it
/// starts from and of the regions.
pub proof fn circles_fix_the_raster(
    before: Raster,
    regions: Seq<ForbiddenRegion>,
    one: Raster,
    other: Raster,
)
    requires
        forall|i: int| 0 <= i < regions.len() ==> (#[trigger] regions[i]).round(),
        before.marks_all(regions, one),
        before.marks_all(regions, other),
    ensures
        one == other,
{
    let first = choose|stages: Seq<Raster>|
        #![trigger before.marked_in_stages(regions, stages)]
        before.marked_in_stages(regions, stages) && stages.last() == one;
    let second = choose|stages: Seq<Raster>|
        #![trigger before.marked_in_stages(regions, stages)]
        before.marked_in_stages(regions, stages) && stages.last() == other;
    stages_agree(before, regions, first, second, regions.len() as int);
}

/// After a rectangle is burned in, every cell strictly inside its footprint
/// is fill, every cell on the edge of the footprint is stroke, every other
/// cell is as before, and the openness test on that footprint answers no.
pub proof fn stamped_footprint_is_closed(raster: Raster, rect: Rectangle, boundary: Boundary)
    requires
        raster.covers(rect.spec_footprint(boundary, 0)),
    ensures
        ({
            let fp = rect.spec_footprint(boundary, 0);
            let after = raster.stamped(fp);
            &&& forall|col: int, row: int|
                fp.strictly_inside(col, row) ==> #[trigger] after.cell(col, row) == RECT_FILL_COLOR
            &&& forall|col: int, row: int|
                fp.on_border(col, row) ==> #[trigger] after.cell(col, row) == RECT_STROKE_COLOR
            &&& forall|col: int, row: int|
                raster.cells.dom().contains((col, row)) && !fp.contains(col, row)
                    ==> #[trigger] after.cell(col, row) == raster.cell(col, row)
            &&& after.openness(fp) == Ok::<bool, PackerError>(false)
        }),
{
    let fp = rect.spec_footprint(boundary, 0);
    let after = raster.stamped(fp);
    assert(fp.on_border(fp.left as int, fp.top as int));
    assert(after.cell(fp.left as int, fp.top as int) == RECT_STROKE_COLOR);
}

/// A rectangle is never found open when a cell of its footprint is
/// forbidden, whatever its size and however much padding is tested.
pub proof fn forbidden_cell_closes_footprint(
    raster: Raster,
    rect: Rectangle,
    boundary: Boundary,
    padding: int,
    tested: int,
    col: int,
    row: int,
)
    requires
        0 <= padding <= tested <= u32::MAX,
        rect.spec_footprint(boundary, padding).contains(col, row),
        raster.cell(col, row) == RECT_HIDE_COLOR,
    ensures
        raster.openness(rect.spec_footprint(boundary, tested)) != Ok::<bool, PackerError>(true),
{
    let fp = rect.spec_footprint(boundary, tested);
    assert(fp.contains(col, row));
    if raster.uniform(fp) {
        assert(raster.cell(col, row) == raster.cell(fp.left as int, fp.top as int));
    }
}

} // verus!
