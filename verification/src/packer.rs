//! The packer: it keeps the rectangles accepted so far, in the order in which
//! they were accepted, and decides for each candidate whether it joins them.

use crate::canvas::BACKGROUND_COLOR;
use crate::canvas::RECT_FILL_COLOR;
use crate::canvas::RECT_HIDE_COLOR;
use crate::canvas::RECT_STROKE_COLOR;
use crate::error::PackerError;
use crate::geometry::Boundary;
use crate::geometry::Footprint;
use crate::geometry::Rectangle;
use crate::occupancy::forbidden_cell_closes_footprint;
use crate::occupancy::initialize_error;
use crate::occupancy::ForbiddenRegion;
use crate::occupancy::OccupancyBuffer;
use crate::occupancy::Raster;
use crate::random::candidate_for;
use crate::random::random_rectangle;
use crate::random::SizeRange;
use nannou::rand::rngs::SmallRng;
use vstd::prelude::*;

verus! {

/// Cells kept free around a candidate when the occupancy buffer is tested.
pub const PLACEMENT_PADDING: u32 = 4;

/// Width of the forbidden ring that a packer made by `new` starts with.
pub const RING_THICKNESS: i32 = 40;

/// How a packer decides whether a candidate collides.
pub enum PlacementValidator {
    /// Compare the candidate with every accepted rectangle.
    Geometric,
    /// Scan the candidate's padded footprint in an occupancy buffer.
    Raster(OccupancyBuffer),
}

impl PlacementValidator {
    /// The raster the validator works on, if it has one.
    pub open spec fn raster(self) -> Option<Raster> {
        match self {
            PlacementValidator::Geometric => None,
            PlacementValidator::Raster(buffer) => Some(buffer@),
        }
    }
}

/// The mathematical content of a packer.
pub struct PackerView {
    pub boundary: Boundary,
    pub accepted: Seq<Rectangle>,
    pub raster: Option<Raster>,
}

/// No two rectangles of the sequence overlap.
pub open spec fn pairwise_disjoint(rects: Seq<Rectangle>) -> bool {
    forall|i: int, j: int|
        0 <= i < j < rects.len() ==> !(#[trigger] rects[i]).spec_overlaps(#[trigger] rects[j])
}

/// Every cell of the footprint holds the fill or the stroke of a rectangle.
pub open spec fn burned(raster: Raster, fp: Footprint) -> bool {
    forall|col: int, row: int|
        fp.contains(col, row) ==> {
            ||| #[trigger] raster.cell(col, row) == RECT_FILL_COLOR
            ||| raster.cell(col, row) == RECT_STROKE_COLOR
        }
}

/// A fifth of a number, rounded toward zero.
pub open spec fn fifth(number: int) -> int {
    if number >= 0 {
        number / 5
    } else {
        -((-number) / 5)
    }
}

/// The forbidden ring that a packer made by `new` starts with: an ellipse
/// around the middle of the raster with radii of two fifths of its sides, and
/// inside it an exempt ellipse whose radii are shorter by the ring's
/// thickness. Each radius is rounded toward zero, so in a boundary too small
/// for the ring the exempt ellipse has a radius of zero or less.
pub open spec fn default_ring(boundary: Boundary) -> Seq<ForbiddenRegion> {
    let outer = ForbiddenRegion {
        center_col: (boundary.w() / 2) as i32,
        center_row: (boundary.h() / 2) as i32,
        width_radius: fifth(boundary.w() * 2) as i32,
        height_radius: fifth(boundary.h() * 2) as i32,
        exempt: false,
    };
    let inner = ForbiddenRegion {
        center_col: outer.center_col,
        center_row: outer.center_row,
        width_radius: fifth(boundary.w() * 2 - RING_THICKNESS * 5) as i32,
        height_radius: fifth(boundary.h() * 2 - RING_THICKNESS * 5) as i32,
        exempt: true,
    };
    seq![outer, inner]
}

impl PackerView {
    /// What holds of a packer at all times: its boundary is usable and its
    /// rectangles have positive sides. With the geometric validator no two of
    /// them overlap. With the raster validator the raster has the size of the
    /// boundary, and the footprint of every rectangle lies inside it and is
    /// burned in.
    pub open spec fn wf(self) -> bool {
        &&& self.boundary.valid()
        &&& forall|i: int| 0 <= i < self.accepted.len() ==> (#[trigger] self.accepted[i]).valid()
        &&& match self.raster {
            None => pairwise_disjoint(self.accepted),
            Some(raster) => {
                &&& raster.wf()
                &&& raster.width == self.boundary.w()
                &&& raster.height == self.boundary.h()
                &&& forall|i: int|
                    0 <= i < self.accepted.len() ==> {
                        &&& raster.covers(
                            (#[trigger] self.accepted[i]).spec_footprint(self.boundary, 0),
                        )
                        &&& burned(raster, self.accepted[i].spec_footprint(self.boundary, 0))
                    }
            },
        }
    }

    /// Whether the packer keeps a candidate. A candidate without width or
    /// height is never kept. The geometric validator keeps one that overlaps
    /// no accepted rectangle; the raster validator keeps one whose padded
    /// footprint is found open.
    pub open spec fn accepts(self, candidate: Rectangle) -> bool {
        &&& candidate.valid()
        &&& match self.raster {
            None => forall|i: int|
                0 <= i < self.accepted.len() ==> !candidate.spec_overlaps(
                    #[trigger] self.accepted[i],
                ),
            Some(raster) => raster.openness(
                candidate.spec_footprint(self.boundary, PLACEMENT_PADDING as int),
            ) == Ok::<bool, PackerError>(true),
        }
    }

    /// The packer after one attempt: a candidate that is kept joins the end
    /// of the accepted rectangles and is burned into the raster, if there is
    /// one; any other candidate leaves the packer as it was.
    pub open spec fn placed(self, candidate: Rectangle) -> PackerView {
        if self.accepts(candidate) {
            PackerView {
                boundary: self.boundary,
                accepted: self.accepted.push(candidate),
                raster: match self.raster {
                    None => None,
                    Some(raster) => Some(raster.stamped(candidate.spec_footprint(self.boundary, 0))),
                },
            }
        } else {
            self
        }
    }

    /// The packer after one attempt for each candidate, in order.
    pub open spec fn placed_all(self, candidates: Seq<Rectangle>) -> PackerView
        decreases candidates.len(),
    {
        if candidates.len() == 0 {
            self
        } else {
            self.placed_all(candidates.drop_last()).placed(candidates.last())
        }
    }
}

/// A packer of rectangles inside a fixed boundary.
pub struct RectanglePacker {
    boundary: Boundary,
    rectangles: Vec<Rectangle>,
    validator: PlacementValidator,
}

impl View for RectanglePacker {
    type V = PackerView;

    closed spec fn view(&self) -> PackerView {
        PackerView {
            boundary: self.boundary,
            accepted: self.rectangles@,
            raster: self.validator.raster(),
        }
    }
}

impl RectanglePacker {
    /// The packer is in a state that its constructors establish and every
    /// attempt keeps.
    pub open spec fn wf(&self) -> bool {
        self@.wf()
    }

    /// Computes a fifth of a number, rounded toward zero.
    fn fifth_of(number: i64) -> (part: i64)
        requires
            -1_000_000_000_000 <= number <= 1_000_000_000_000,
        ensures
            part == fifth(number as int),
    {
        if number >= 0 {
            number / 5
        } else {
            -((-number) / 5)
        }
    }

    /// The two regions of the forbidden ring.
    fn ring_regions(boundary: &Boundary) -> (regions: Vec<ForbiddenRegion>)
        requires
            boundary.valid(),
        ensures
            regions@ == default_ring(*boundary),
    {
        let width: i64 = boundary.width();
        let height: i64 = boundary.height();
        let center_col: i32 = (width / 2) as i32;
        let center_row: i32 = (height / 2) as i32;
        let thickness: i64 = RING_THICKNESS as i64;
        let mut regions: Vec<ForbiddenRegion> = Vec::new();
        regions.push(
            ForbiddenRegion {
                center_col,
                center_row,
                width_radius: Self::fifth_of(width * 2) as i32,
                height_radius: Self::fifth_of(height * 2) as i32,
                exempt: false,
            },
        );
        regions.push(
            ForbiddenRegion {
                center_col,
                center_row,
                width_radius: Self::fifth_of(width * 2 - thickness * 5) as i32,
                height_radius: Self::fifth_of(height * 2 - thickness * 5) as i32,
                exempt: true,
            },
        );
        assert(regions@ =~= default_ring(*boundary));
        regions
    }

    /// A packer with the raster validator, whose buffer starts as background
    /// with the forbidden ring marked in it: every cell is background or
    /// forbidden.
    pub fn new(boundary: Boundary) -> (result: Result<RectanglePacker, PackerError>)
        ensures
            match result {
                Ok(packer) => {
                    &&& initialize_error(boundary, default_ring(boundary)) is None
                    &&& packer.wf()
                    &&& packer@.boundary == boundary
                    &&& packer@.accepted == Seq::<Rectangle>::empty()
                    &&& packer@.raster matches Some(raster)
                    &&& Raster::blank(boundary.w() as nat, boundary.h() as nat).marks_all(
                        default_ring(boundary),
                        raster,
                    )
                    &&& raster.painted_in(BACKGROUND_COLOR, RECT_HIDE_COLOR, RECT_HIDE_COLOR)
                },
                Err(e) => initialize_error(boundary, default_ring(boundary)) == Some(e),
            },
    {
        if !boundary.is_valid() {
            return Err(PackerError::EmptyBoundary);
        }
        let regions = Self::ring_regions(&boundary);
        match OccupancyBuffer::initialize(&boundary, &regions) {
            Ok(buffer) => Self::with_validator(boundary, PlacementValidator::Raster(buffer)),
            Err(e) => Err(e),
        }
    }

    /// A packer with the validator given. A buffer handed in must have the
    /// size of the boundary.
    pub fn with_validator(boundary: Boundary, validator: PlacementValidator) -> (result: Result<
        RectanglePacker,
        PackerError,
    >)
        ensures
            match result {
                Ok(packer) => {
                    &&& boundary.valid()
                    &&& packer.wf()
                    &&& packer@ == PackerView {
                        boundary,
                        accepted: Seq::<Rectangle>::empty(),
                        raster: validator.raster(),
                    }
                },
                Err(e) => if !boundary.valid() {
                    e == PackerError::EmptyBoundary
                } else {
                    &&& e == PackerError::BufferMismatch
                    &&& validator.raster() matches Some(raster)
                    &&& (raster.width != boundary.w() || raster.height != boundary.h())
                },
            },
    {
        if !boundary.is_valid() {
            return Err(PackerError::EmptyBoundary);
        }
        let fits = match &validator {
            PlacementValidator::Geometric => true,
            PlacementValidator::Raster(buffer) => buffer.width() as i64 == boundary.width()
                && buffer.height() as i64 == boundary.height(),
        };
        if !fits {
            return Err(PackerError::BufferMismatch);
        }
        Ok(RectanglePacker { boundary, rectangles: Vec::new(), validator })
    }

    /// The boundary the packer was made with.
    pub fn boundary(&self) -> (boundary: Boundary)
        ensures
            boundary == self@.boundary,
    {
        self.boundary
    }

    /// The accepted rectangles, in the order in which they were accepted.
    pub fn rectangles(&self) -> (rectangles: &Vec<Rectangle>)
        ensures
            rectangles@ == self@.accepted,
    {
        &self.rectangles
    }

    /// The occupancy buffer, if the packer has the raster validator.
    pub fn image_buffer(&self) -> (buffer: Option<&OccupancyBuffer>)
        ensures
            match buffer {
                Some(b) => self@.raster == Some(b@),
                None => self@.raster is None,
            },
    {
        match &self.validator {
            PlacementValidator::Geometric => None,
            PlacementValidator::Raster(buffer) => Some(buffer),
        }
    }

    /// Whether the candidate overlaps none of the accepted rectangles.
    fn clear_of_accepted(&self, candidate: &Rectangle) -> (clear: bool)
        ensures
            clear == forall|i: int|
                0 <= i < self@.accepted.len() ==> !candidate.spec_overlaps(
                    #[trigger] self@.accepted[i],
                ),
    {
        let mut index: usize = 0;
        while index < self.rectangles.len()
            invariant
                index <= self.rectangles.len(),
                forall|i: int|
                    0 <= i < index ==> !candidate.spec_overlaps(#[trigger] self.rectangles@[i]),
            decreases self.rectangles.len() - index,
        {
            if candidate.overlaps(&self.rectangles[index]) {
                assert(candidate.spec_overlaps(self@.accepted[index as int]));
                return false;
            }
            index += 1;
        }
        true
    }

    /// One attempt with a candidate chosen by the caller. The candidate is
    /// kept or dropped; a dropped candidate changes nothing.
    pub fn place(&mut self, candidate: Rectangle) -> (kept: bool)
        requires
            old(self).wf(),
        ensures
            final(self).wf(),
            final(self)@ == old(self)@.placed(candidate),
            kept == old(self)@.accepts(candidate),
    {
        if !candidate.is_valid() {
            return false;
        }
        let free = match &self.validator {
            PlacementValidator::Geometric => self.clear_of_accepted(&candidate),
            PlacementValidator::Raster(buffer) => match buffer.is_open(
                &candidate,
                &self.boundary,
                PLACEMENT_PADDING,
            ) {
                Ok(open) => open,
                Err(_) => false,
            },
        };
        if !free {
            return false;
        }
        proof {
            placement_keeps_invariant(self@, candidate);
        }
        match &mut self.validator {
            PlacementValidator::Geometric => {},
            PlacementValidator::Raster(buffer) => {
                let stamped = buffer.stamp(&candidate, &self.boundary);
                assert(stamped is Ok);
            },
        }
        self.rectangles.push(candidate);
        true
    }

    /// One attempt with a candidate drawn from the random source, with the
    /// standard sizes.
    pub fn add_random_rectangle(&mut self, rng: &mut SmallRng)
        requires
            old(self).wf(),
        ensures
            final(self).wf(),
            exists|candidate: Rectangle|
                candidate_for(old(self)@.boundary, SizeRange::standard(), candidate) && final(self)@
                    == #[trigger] old(self)@.placed(candidate),
    {
        let sizes = SizeRange::default();
        let candidate = random_rectangle(&self.boundary, rng, sizes);
        let _ = self.place(candidate);
    }

    /// `count` attempts in a row, each with a fresh candidate drawn from the
    /// random source. The cost is that of `count` single attempts: nothing
    /// is skipped once the boundary is full. Returns how many candidates
    /// were kept.
    pub fn attempt_placement(&mut self, rng: &mut SmallRng, count: u32) -> (kept: u32)
        requires
            old(self).wf(),
        ensures
            final(self).wf(),
            kept <= count,
            final(self)@.accepted.len() == old(self)@.accepted.len() + kept,
            exists|candidates: Seq<Rectangle>|
                {
                    &&& candidates.len() == count
                    &&& forall|i: int|
                        0 <= i < count ==> candidate_for(
                            old(self)@.boundary,
                            SizeRange::standard(),
                            #[trigger] candidates[i],
                        )
                    &&& final(self)@ == #[trigger] old(self)@.placed_all(candidates)
                },
    {
        let ghost start = self@;
        let ghost mut drawn: Seq<Rectangle> = Seq::empty();
        let mut kept: u32 = 0;
        let mut done: u32 = 0;
        while done < count
            invariant
                done <= count,
                kept <= done,
                self.wf(),
                start == old(self)@,
                drawn.len() == done,
                forall|i: int|
                    0 <= i < done ==> candidate_for(
                        start.boundary,
                        SizeRange::standard(),
                        #[trigger] drawn[i],
                    ),
                self@ == start.placed_all(drawn),
                self@.boundary == start.boundary,
                self@.accepted.len() == start.accepted.len() + kept,
            decreases count - done,
        {
            let candidate = random_rectangle(&self.boundary, rng, SizeRange::default());
            proof {
                let next = drawn.push(candidate);
                assert(next.drop_last() =~= drawn);
                assert(next.last() == candidate);
                drawn = next;
            }
            if self.place(candidate) {
                kept += 1;
            }
            done += 1;
        }
        kept
    }
}

/// An attempt leaves the packer well formed.
pub proof fn placement_keeps_invariant(packer: PackerView, candidate: Rectangle)
    requires
        packer.wf(),
    ensures
        packer.placed(candidate).wf(),
{
    let after = packer.placed(candidate);
    if packer.accepts(candidate) {
        match packer.raster {
            None => {},
            Some(raster) => {
                let padded = candidate.spec_footprint(packer.boundary, PLACEMENT_PADDING as int);
                let fp = candidate.spec_footprint(packer.boundary, 0);
                let next = raster.stamped(fp);
                assert(fp.within(padded));
                assert(raster.covers(fp));
                assert forall|i: int| 0 <= i < after.accepted.len() implies {
                    &&& next.covers((#[trigger] after.accepted[i]).spec_footprint(packer.boundary, 0))
                    &&& burned(next, after.accepted[i].spec_footprint(packer.boundary, 0))
                } by {
                    if i < packer.accepted.len() {
                        let earlier = packer.accepted[i].spec_footprint(packer.boundary, 0);
                        assert(burned(raster, earlier));
                        assert forall|col: int, row: int| earlier.contains(col, row) implies {
                            ||| #[trigger] next.cell(col, row) == RECT_FILL_COLOR
                            ||| next.cell(col, row) == RECT_STROKE_COLOR
                        } by {
                            assert(raster.cell(col, row) == RECT_FILL_COLOR || raster.cell(col, row)
                                == RECT_STROKE_COLOR);
                        }
                    }
                }
            },
        }
    }
}

/// Attempts only ever add to the end of the accepted rectangles, at most one
/// rectangle per attempt, and leave the packer well formed. So after any run
/// of attempts the accepted rectangles are no more than there were before
/// plus one per attempt, they are no fewer than after any shorter run of the
/// same attempts, and with the geometric validator no two of them overlap.
pub proof fn run_grows_accepted(packer: PackerView, candidates: Seq<Rectangle>, earlier: int)
    requires
        packer.wf(),
        0 <= earlier <= candidates.len(),
    ensures
        ({
            let end = packer.placed_all(candidates);
            let mid = packer.placed_all(candidates.take(earlier));
            &&& end.wf()
            &&& end.boundary == packer.boundary
            &&& end.raster is None <==> packer.raster is None
            &&& end.raster is None ==> pairwise_disjoint(end.accepted)
            &&& packer.accepted.len() <= mid.accepted.len() <= end.accepted.len()
            &&& end.accepted.len() <= packer.accepted.len() + candidates.len()
            &&& mid.accepted =~= end.accepted.take(mid.accepted.len() as int)
        }),
    decreases candidates.len(),
{
    if candidates.len() == 0 {
        assert(candidates.take(earlier) =~= candidates);
    } else {
        let shorter = candidates.drop_last();
        let before = packer.placed_all(shorter);
        if earlier == candidates.len() {
            assert(candidates.take(earlier) =~= candidates);
            run_grows_accepted(packer, shorter, shorter.len() as int);
            assert(shorter.take(shorter.len() as int) =~= shorter);
        } else {
            assert(candidates.take(earlier) =~= shorter.take(earlier));
            run_grows_accepted(packer, shorter, earlier);
        }
        placement_keeps_invariant(before, candidates.last());
    }
}

/// The raster validator never keeps a candidate when a cell of its
/// footprint, padded or not, is forbidden.
pub proof fn forbidden_cell_rejects_candidate(
    packer: PackerView,
    candidate: Rectangle,
    padding: int,
    col: int,
    row: int,
)
    requires
        0 <= padding <= PLACEMENT_PADDING,
        packer.raster matches Some(raster) && raster.cell(col, row) == RECT_HIDE_COLOR,
        candidate.spec_footprint(packer.boundary, padding).contains(col, row),
    ensures
        !packer.accepts(candidate),
        packer.placed(candidate) == packer,
{
    forbidden_cell_closes_footprint(
        packer.raster->0,
        candidate,
        packer.boundary,
        padding,
        PLACEMENT_PADDING as int,
        col,
        row,
    );
}

/// An attempt paints with fill and stroke only: where every cell of the
/// raster was background, forbidden, fill or stroke before, it is after.
pub proof fn placement_keeps_palette(packer: PackerView, candidate: Rectangle)
    requires
        packer.raster matches Some(raster) && raster.painted_in(
            BACKGROUND_COLOR,
            RECT_HIDE_COLOR,
            RECT_FILL_COLOR,
        ),
    ensures
        packer.placed(candidate).raster matches Some(after) && after.painted_in(
            BACKGROUND_COLOR,
            RECT_STROKE_COLOR,
            RECT_FILL_COLOR,
        ),
{
    if packer.accepts(candidate) {
        let raster = packer.raster->0;
        let fp = candidate.spec_footprint(packer.boundary, 0);
        let after = raster.stamped(fp);
        assert forall|k: (int, int)| after.cells.dom().contains(k) implies {
            ||| #[trigger] after.cells[k] == BACKGROUND_COLOR
            ||| after.cells[k] == RECT_STROKE_COLOR
            ||| after.cells[k] == RECT_FILL_COLOR
        } by {
            if !fp.contains(k.0, k.1) {
                assert(raster.cells.dom().contains(k));
            }
        }
    }
}

/// A cell that holds the forbidden colour keeps it through every attempt:
/// what is forbidden at construction stays forbidden.
pub proof fn placement_spares_forbidden_cells(
    packer: PackerView,
    candidate: Rectangle,
    col: int,
    row: int,
)
    requires
        packer.raster matches Some(raster) && raster.cells.dom().contains((col, row))
            && raster.cell(col, row) == RECT_HIDE_COLOR,
    ensures
        packer.placed(candidate).raster matches Some(after) && after.cell(col, row)
            == RECT_HIDE_COLOR,
{
    if packer.accepts(candidate) {
        let raster = packer.raster->0;
        let padded = candidate.spec_footprint(packer.boundary, PLACEMENT_PADDING as int);
        let fp = candidate.spec_footprint(packer.boundary, 0);
        assert(fp.within(padded));
        if fp.contains(col, row) {
            assert(padded.contains(col, row));
            assert(raster.cell(col, row) == raster.cell(padded.left as int, padded.top as int));
        }
    }
}

} // verus!
