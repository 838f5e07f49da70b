use nannou::rand::rngs::SmallRng;
use nannou::rand::SeedableRng;
use rectangle_packer::canvas::BACKGROUND_COLOR;
use rectangle_packer::canvas::RECT_FILL_COLOR;
use rectangle_packer::canvas::RECT_HIDE_COLOR;
use rectangle_packer::canvas::RECT_STROKE_COLOR;
use rectangle_packer::random::shrink;
use rectangle_packer::random_rectangle;
use rectangle_packer::Boundary;
use rectangle_packer::ForbiddenRegion;
use rectangle_packer::OccupancyBuffer;
use rectangle_packer::PackerError;
use rectangle_packer::PlacementValidator;
use rectangle_packer::Rectangle;
use rectangle_packer::RectanglePacker;
use rectangle_packer::SizeRange;

fn window() -> Boundary {
    Boundary { left: -500, right: 500, bottom: -500, top: 500 }
}

fn geometric(boundary: Boundary) -> RectanglePacker {
    RectanglePacker::with_validator(boundary, PlacementValidator::Geometric).unwrap()
}

fn raster(boundary: Boundary, regions: Vec<ForbiddenRegion>) -> RectanglePacker {
    let buffer = OccupancyBuffer::initialize(&boundary, &regions).unwrap();
    RectanglePacker::with_validator(boundary, PlacementValidator::Raster(buffer)).unwrap()
}

fn no_two_overlap(rects: &Vec<Rectangle>) -> bool {
    for i in 0..rects.len() {
        for j in i + 1..rects.len() {
            if rects[i].overlaps(&rects[j]) {
                return false;
            }
        }
    }
    true
}

#[test]
fn shrink_pulls_edges_toward_the_origin() {
    assert_eq!(shrink(500), 454);
    assert_eq!(shrink(-500), -454);
    assert_eq!(shrink(0), 0);
    assert_eq!(shrink(11), 10);
    assert_eq!(shrink(-11), -10);
    assert_eq!(shrink(1), 0);
    assert_eq!(shrink(-1), 0);
    assert_eq!(shrink(i32::MAX), 1_952_257_860);
    assert_eq!(shrink(i32::MIN), -1_952_257_861);
}

#[test]
fn standard_sizes() {
    let sizes = SizeRange::default();
    assert_eq!(sizes, SizeRange { min: 4, max: 60 });
    assert!(sizes.is_valid());
    assert!(!SizeRange { min: 0, max: 5 }.is_valid());
    assert!(!SizeRange { min: 5, max: 5 }.is_valid());
    assert!(!SizeRange { min: 6, max: 5 }.is_valid());
}

#[test]
fn candidates_lie_inside_the_shrunk_boundary() {
    let mut rng = SmallRng::seed_from_u64(11);
    let boundary = window();
    for _ in 0..2000 {
        let r = random_rectangle(&boundary, &mut rng, SizeRange::default());
        assert!(-454 <= r.x && r.x <= 454);
        assert!(-454 <= r.y && r.y <= 454);
        assert!(4 <= r.width && r.width < 60);
        assert!(4 <= r.height && r.height < 60);
    }
}

#[test]
fn candidates_follow_the_sizes_given() {
    let mut rng = SmallRng::seed_from_u64(5);
    let boundary = Boundary { left: 10, right: 40, bottom: -7, top: -2 };
    for _ in 0..500 {
        let r = random_rectangle(&boundary, &mut rng, SizeRange { min: 1, max: 2 });
        assert!(9 <= r.x && r.x <= 36);
        assert!(-6 <= r.y && r.y <= -1);
        assert_eq!(r.width, 1);
        assert_eq!(r.height, 1);
    }
}

#[test]
fn candidates_vary() {
    let mut rng = SmallRng::seed_from_u64(3);
    let boundary = window();
    let first = random_rectangle(&boundary, &mut rng, SizeRange::default());
    let mut differs_in_x = false;
    let mut differs_in_y = false;
    let mut differs_in_width = false;
    let mut differs_in_height = false;
    for _ in 0..200 {
        let r = random_rectangle(&boundary, &mut rng, SizeRange::default());
        differs_in_x |= r.x != first.x;
        differs_in_y |= r.y != first.y;
        differs_in_width |= r.width != first.width;
        differs_in_height |= r.height != first.height;
    }
    assert!(differs_in_x && differs_in_y && differs_in_width && differs_in_height);
}

#[test]
fn same_seed_draws_the_same_candidates() {
    let mut one = SmallRng::seed_from_u64(99);
    let mut two = SmallRng::seed_from_u64(99);
    let boundary = window();
    for _ in 0..50 {
        assert_eq!(
            random_rectangle(&boundary, &mut one, SizeRange::default()),
            random_rectangle(&boundary, &mut two, SizeRange::default())
        );
    }
}

#[test]
fn new_rejects_an_empty_boundary() {
    let flat = Boundary { left: -5, right: 5, bottom: 0, top: 0 };
    assert_eq!(RectanglePacker::new(flat).err(), Some(PackerError::EmptyBoundary));
    let inverted = Boundary { left: 5, right: -5, bottom: -5, top: 5 };
    assert_eq!(RectanglePacker::new(inverted).err(), Some(PackerError::EmptyBoundary));
}

#[test]
fn new_rejects_a_boundary_beyond_memory() {
    let huge = Boundary { left: i32::MIN, right: i32::MAX, bottom: i32::MIN, top: i32::MAX };
    assert_eq!(RectanglePacker::new(huge).err(), Some(PackerError::BoundaryTooLarge));
}

#[test]
fn new_rejects_a_ring_too_large_to_draw() {
    let wide = Boundary { left: 0, right: 115_850, bottom: 0, top: 1 };
    assert_eq!(RectanglePacker::new(wide).err(), Some(PackerError::RegionOutOfRange));
    let wide_enough = Boundary { left: 0, right: 115_849, bottom: 0, top: 1 };
    assert!(RectanglePacker::new(wide_enough).is_ok());
}

#[test]
fn new_starts_empty_with_the_forbidden_ring() {
    let packer = RectanglePacker::new(window()).unwrap();
    assert_eq!(packer.boundary(), window());
    assert!(packer.rectangles().is_empty());
    let buffer = packer.image_buffer().unwrap();
    assert_eq!(buffer.width(), 1000);
    assert_eq!(buffer.height(), 1000);
    assert_eq!(buffer.cell(500, 500), Some(BACKGROUND_COLOR));
    assert_eq!(buffer.cell(500 + 350, 500), Some(BACKGROUND_COLOR));
    assert_eq!(buffer.cell(500 + 380, 500), Some(RECT_HIDE_COLOR));
    assert_eq!(buffer.cell(500, 500 - 380), Some(RECT_HIDE_COLOR));
    assert_eq!(buffer.cell(500 - 270, 500 + 270), Some(RECT_HIDE_COLOR));
    assert_eq!(buffer.cell(500 + 400, 500), Some(RECT_HIDE_COLOR));
    assert_eq!(buffer.cell(500 + 410, 500), Some(BACKGROUND_COLOR));
    assert_eq!(buffer.cell(0, 0), Some(BACKGROUND_COLOR));
    assert_eq!(buffer.cell(999, 999), Some(BACKGROUND_COLOR));
}

#[test]
fn new_ring_follows_the_sides_of_the_boundary() {
    let packer = RectanglePacker::new(Boundary { left: -400, right: 400, bottom: -150, top: 150 }).unwrap();
    let buffer = packer.image_buffer().unwrap();
    assert_eq!(buffer.width(), 800);
    assert_eq!(buffer.height(), 300);
    assert_eq!(buffer.cell(400, 150), Some(BACKGROUND_COLOR));
    assert_eq!(buffer.cell(400 + 300, 150), Some(RECT_HIDE_COLOR));
    assert_eq!(buffer.cell(400, 150 + 100), Some(RECT_HIDE_COLOR));
    assert_eq!(buffer.cell(400 + 330, 150), Some(BACKGROUND_COLOR));
    assert_eq!(buffer.cell(400, 150 + 125), Some(BACKGROUND_COLOR));
    assert_eq!(buffer.cell(400, 150 - 120), Some(RECT_HIDE_COLOR));
    assert_eq!(buffer.cell(400, 150 + 120), Some(RECT_HIDE_COLOR));
    assert_eq!(buffer.cell(400, 150 - 80), Some(BACKGROUND_COLOR));
    assert_eq!(buffer.cell(400, 150 + 80), Some(BACKGROUND_COLOR));
}

#[test]
fn new_leaves_no_hole_in_a_small_boundary() {
    let packer = RectanglePacker::new(Boundary { left: -25, right: 25, bottom: -25, top: 25 }).unwrap();
    let buffer = packer.image_buffer().unwrap();
    assert_eq!(buffer.width(), 50);
    assert_eq!(buffer.height(), 50);
    assert_eq!(buffer.cell(25, 25), Some(RECT_HIDE_COLOR));
    assert_eq!(buffer.cell(25, 5), Some(RECT_HIDE_COLOR));
    assert_eq!(buffer.cell(45, 25), Some(RECT_HIDE_COLOR));
    assert_eq!(buffer.cell(25, 4), Some(BACKGROUND_COLOR));
    assert_eq!(buffer.cell(0, 0), Some(BACKGROUND_COLOR));
    assert_eq!(buffer.cell(49, 49), Some(BACKGROUND_COLOR));
}

#[test]
fn new_clears_the_centre_cell_where_the_inner_radius_rounds_to_zero() {
    for side in [98, 99] {
        let boundary = Boundary { left: -49, right: side - 49, bottom: -49, top: side - 49 };
        let packer = RectanglePacker::new(boundary).unwrap();
        let buffer = packer.image_buffer().unwrap();
        assert_eq!(buffer.width(), side as u32);
        assert_eq!(buffer.cell(49, 49), Some(BACKGROUND_COLOR));
        assert_eq!(buffer.cell(48, 49), Some(RECT_HIDE_COLOR));
        assert_eq!(buffer.cell(50, 49), Some(RECT_HIDE_COLOR));
        assert_eq!(buffer.cell(49, 48), Some(RECT_HIDE_COLOR));
        assert_eq!(buffer.cell(49, 50), Some(RECT_HIDE_COLOR));
        assert_eq!(buffer.cell(49 + 39, 49), Some(RECT_HIDE_COLOR));
        assert_eq!(buffer.cell(49 + 40, 49), Some(BACKGROUND_COLOR));
    }
}

#[test]
fn new_clears_nothing_where_the_inner_radius_is_negative() {
    let boundary = Boundary { left: -47, right: 48, bottom: -47, top: 48 };
    let packer = RectanglePacker::new(boundary).unwrap();
    let buffer = packer.image_buffer().unwrap();
    assert_eq!(buffer.width(), 95);
    assert_eq!(buffer.cell(47, 47), Some(RECT_HIDE_COLOR));
    assert_eq!(buffer.cell(47 + 38, 47), Some(RECT_HIDE_COLOR));
    assert_eq!(buffer.cell(47 + 39, 47), Some(BACKGROUND_COLOR));
}

#[test]
fn new_ring_has_the_thickness_of_forty_cells() {
    let packer = RectanglePacker::new(Boundary { left: -50, right: 50, bottom: -50, top: 50 }).unwrap();
    let buffer = packer.image_buffer().unwrap();
    assert_eq!(buffer.cell(50, 50), Some(BACKGROUND_COLOR));
    assert_eq!(buffer.cell(51, 50), Some(RECT_HIDE_COLOR));
    assert_eq!(buffer.cell(90, 50), Some(RECT_HIDE_COLOR));
    assert_eq!(buffer.cell(91, 50), Some(BACKGROUND_COLOR));
}

#[test]
fn new_holds_only_background_and_forbidden_cells() {
    for (width, height) in [(400, 200), (99, 99), (120, 300)] {
        let boundary = Boundary { left: 0, right: width, bottom: 0, top: height };
        let packer = RectanglePacker::new(boundary).unwrap();
        let buffer = packer.image_buffer().unwrap();
        let mut forbidden: u32 = 0;
        for col in 0..width as u32 {
            for row in 0..height as u32 {
                let color = buffer.cell(col, row).unwrap();
                assert!(color == BACKGROUND_COLOR || color == RECT_HIDE_COLOR);
                if color == RECT_HIDE_COLOR {
                    forbidden += 1;
                }
            }
        }
        assert!(forbidden > 0);
    }
}

#[test]
fn new_accepts_the_smallest_boundary() {
    let mut packer = RectanglePacker::new(Boundary { left: 0, right: 1, bottom: 0, top: 1 }).unwrap();
    let buffer = packer.image_buffer().unwrap();
    assert_eq!(buffer.width(), 1);
    assert_eq!(buffer.height(), 1);
    let mut rng = SmallRng::seed_from_u64(6);
    assert_eq!(packer.attempt_placement(&mut rng, 50), 0);
    assert!(packer.rectangles().is_empty());
}

#[test]
fn with_validator_rejects_an_empty_boundary() {
    let flat = Boundary { left: -5, right: 5, bottom: 0, top: 0 };
    assert_eq!(
        RectanglePacker::with_validator(flat, PlacementValidator::Geometric).err(),
        Some(PackerError::EmptyBoundary)
    );
}

#[test]
fn with_validator_rejects_a_buffer_of_another_size() {
    let small = Boundary { left: 0, right: 50, bottom: 0, top: 50 };
    let buffer = OccupancyBuffer::initialize(&small, &Vec::new()).unwrap();
    let large = Boundary { left: 0, right: 60, bottom: 0, top: 50 };
    assert_eq!(
        RectanglePacker::with_validator(large, PlacementValidator::Raster(buffer)).err(),
        Some(PackerError::BufferMismatch)
    );
    let buffer = OccupancyBuffer::initialize(&small, &Vec::new()).unwrap();
    let tall = Boundary { left: 0, right: 50, bottom: 0, top: 51 };
    assert_eq!(
        RectanglePacker::with_validator(tall, PlacementValidator::Raster(buffer)).err(),
        Some(PackerError::BufferMismatch)
    );
}

#[test]
fn geometric_packer_has_no_buffer() {
    let packer = geometric(window());
    assert!(packer.image_buffer().is_none());
    assert!(packer.rectangles().is_empty());
    assert_eq!(packer.boundary(), window());
}

#[test]
fn geometric_packer_keeps_what_does_not_overlap() {
    let mut packer = geometric(window());
    let a = Rectangle { x: 0, y: 0, width: 10, height: 10 };
    let b = Rectangle { x: 10, y: 0, width: 10, height: 10 };
    let c = Rectangle { x: 5, y: 5, width: 10, height: 10 };
    let d = Rectangle { x: -30, y: -30, width: 10, height: 10 };
    assert!(packer.place(a));
    assert!(packer.place(b));
    assert!(!packer.place(c));
    assert!(packer.place(d));
    assert!(!packer.place(a));
    assert_eq!(packer.rectangles(), &vec![a, b, d]);
}

#[test]
fn geometric_packer_ignores_the_boundary() {
    let mut packer = geometric(Boundary { left: 0, right: 10, bottom: 0, top: 10 });
    assert!(packer.place(Rectangle { x: 5000, y: -5000, width: 10, height: 10 }));
    assert_eq!(packer.rectangles().len(), 1);
}

#[test]
fn candidate_without_extent_is_dropped() {
    let mut packer = geometric(window());
    assert!(!packer.place(Rectangle { x: 0, y: 0, width: 0, height: 10 }));
    assert!(!packer.place(Rectangle { x: 0, y: 0, width: 10, height: 0 }));
    assert!(packer.rectangles().is_empty());
    let mut packer = raster(window(), Vec::new());
    assert!(!packer.place(Rectangle { x: 0, y: 0, width: 0, height: 10 }));
    assert!(!packer.place(Rectangle { x: 0, y: 0, width: 10, height: 0 }));
    assert!(packer.rectangles().is_empty());
    assert_eq!(packer.image_buffer().unwrap().cell(500, 500), Some(BACKGROUND_COLOR));
}

#[test]
fn raster_packer_burns_what_it_keeps() {
    let mut packer = raster(window(), Vec::new());
    let a = Rectangle { x: 100, y: 100, width: 20, height: 10 };
    assert!(packer.place(a));
    assert_eq!(packer.rectangles(), &vec![a]);
    let buffer = packer.image_buffer().unwrap();
    assert_eq!(buffer.cell(600, 400), Some(RECT_FILL_COLOR));
    assert_eq!(buffer.cell(590, 395), Some(RECT_STROKE_COLOR));
    assert_eq!(buffer.cell(610, 405), Some(RECT_STROKE_COLOR));
    assert_eq!(buffer.cell(589, 400), Some(BACKGROUND_COLOR));
    assert_eq!(buffer.cell(611, 400), Some(BACKGROUND_COLOR));
    assert_eq!(buffer.cell(600, 394), Some(BACKGROUND_COLOR));
    assert_eq!(buffer.cell(600, 406), Some(BACKGROUND_COLOR));
}

#[test]
fn raster_packer_drops_the_same_candidate_twice() {
    let mut packer = raster(window(), Vec::new());
    let a = Rectangle { x: 0, y: 0, width: 20, height: 20 };
    assert!(packer.place(a));
    assert!(!packer.place(a));
    assert_eq!(packer.rectangles().len(), 1);
}

#[test]
fn raster_packer_keeps_a_margin_of_four_cells() {
    let mut packer = raster(window(), Vec::new());
    assert!(packer.place(Rectangle { x: 0, y: 0, width: 20, height: 20 }));
    assert!(!packer.place(Rectangle { x: 24, y: 0, width: 20, height: 20 }));
    assert!(packer.place(Rectangle { x: 25, y: 0, width: 20, height: 20 }));
    assert_eq!(packer.rectangles().len(), 2);
}

#[test]
fn raster_packer_drops_a_candidate_that_leaves_the_buffer() {
    let mut packer = raster(window(), Vec::new());
    let before: Vec<u8> = packer.image_buffer().unwrap().samples().to_vec();
    assert!(!packer.place(Rectangle { x: 490, y: 0, width: 20, height: 20 }));
    assert!(!packer.place(Rectangle { x: 0, y: 495, width: 4, height: 4 }));
    assert!(!packer.place(Rectangle { x: -5000, y: 0, width: 4, height: 4 }));
    assert!(packer.rectangles().is_empty());
    assert_eq!(packer.image_buffer().unwrap().samples(), &before[..]);
}

#[test]
fn raster_packer_drops_a_candidate_whose_padding_leaves_the_buffer() {
    let mut packer = raster(window(), Vec::new());
    assert!(!packer.place(Rectangle { x: 487, y: 0, width: 20, height: 20 }));
    assert!(packer.place(Rectangle { x: 485, y: 0, width: 20, height: 20 }));
}

#[test]
fn raster_packer_drops_a_candidate_on_a_forbidden_cell() {
    let disc = ForbiddenRegion { center_col: 500, center_row: 500, width_radius: 50, height_radius: 50, exempt: false };
    let mut packer = raster(window(), vec![disc]);
    let before: Vec<u8> = packer.image_buffer().unwrap().samples().to_vec();
    assert!(!packer.place(Rectangle { x: 0, y: 0, width: 10, height: 10 }));
    assert!(!packer.place(Rectangle { x: 50, y: 0, width: 10, height: 10 }));
    assert!(!packer.place(Rectangle { x: 58, y: 0, width: 10, height: 10 }));
    assert!(!packer.place(Rectangle { x: 0, y: 0, width: 300, height: 300 }));
    assert!(packer.rectangles().is_empty());
    assert_eq!(packer.image_buffer().unwrap().samples(), &before[..]);
    assert!(packer.place(Rectangle { x: 60, y: 0, width: 10, height: 10 }));
}

#[test]
fn raster_packer_keeps_a_candidate_inside_the_fill_of_another() {
    let mut packer = raster(window(), Vec::new());
    let outer = Rectangle { x: 0, y: 0, width: 59, height: 59 };
    let inner = Rectangle { x: 0, y: 0, width: 10, height: 10 };
    assert!(packer.place(outer));
    assert!(packer.place(inner));
    assert_eq!(packer.rectangles(), &vec![outer, inner]);
    let buffer = packer.image_buffer().unwrap();
    assert_eq!(buffer.cell(495, 495), Some(RECT_STROKE_COLOR));
    assert_eq!(buffer.cell(500, 500), Some(RECT_FILL_COLOR));
    assert_eq!(buffer.cell(490, 490), Some(RECT_FILL_COLOR));
}

#[test]
fn default_packer_keeps_candidates_off_the_ring() {
    let mut packer = RectanglePacker::new(window()).unwrap();
    assert!(!packer.place(Rectangle { x: 380, y: 0, width: 10, height: 10 }));
    assert!(!packer.place(Rectangle { x: 0, y: -380, width: 10, height: 10 }));
    assert!(!packer.place(Rectangle { x: 352, y: 0, width: 10, height: 10 }));
    assert!(packer.place(Rectangle { x: 351, y: 0, width: 10, height: 10 }));
    assert!(packer.place(Rectangle { x: 0, y: 0, width: 10, height: 10 }));
    assert!(packer.place(Rectangle { x: 430, y: 0, width: 10, height: 10 }));
    assert_eq!(packer.rectangles().len(), 3);
}

#[test]
fn add_random_rectangle_adds_at_most_one() {
    let mut rng = SmallRng::seed_from_u64(1);
    let mut packer = RectanglePacker::new(window()).unwrap();
    let mut before: usize = 0;
    for _ in 0..300 {
        packer.add_random_rectangle(&mut rng);
        let after: usize = packer.rectangles().len();
        assert!(after == before || after == before + 1);
        before = after;
    }
    assert!(before > 0);
}

#[test]
fn accepted_rectangles_keep_their_order() {
    let mut rng = SmallRng::seed_from_u64(8);
    let mut packer = geometric(window());
    let mut earlier: Vec<Rectangle> = Vec::new();
    for _ in 0..200 {
        packer.add_random_rectangle(&mut rng);
        let now = packer.rectangles();
        assert!(now.len() >= earlier.len());
        assert_eq!(&now[..earlier.len()], &earlier[..]);
        earlier = now.clone();
    }
}

#[test]
fn geometric_run_never_overlaps() {
    let mut rng = SmallRng::seed_from_u64(2024);
    let mut packer = geometric(window());
    let kept: u32 = packer.attempt_placement(&mut rng, 3000);
    assert!(kept <= 3000);
    assert!(kept > 100);
    assert_eq!(packer.rectangles().len(), kept as usize);
    assert!(no_two_overlap(packer.rectangles()));
    for r in packer.rectangles().iter() {
        assert!(r.is_valid());
    }
}

#[test]
fn attempt_placement_counts_what_it_keeps() {
    let mut rng = SmallRng::seed_from_u64(77);
    let mut packer = RectanglePacker::new(window()).unwrap();
    let first: u32 = packer.attempt_placement(&mut rng, 500);
    assert!(first <= 500);
    assert_eq!(packer.rectangles().len(), first as usize);
    let second: u32 = packer.attempt_placement(&mut rng, 500);
    assert!(second <= 500);
    assert_eq!(packer.rectangles().len(), (first + second) as usize);
    assert_eq!(packer.attempt_placement(&mut rng, 0), 0);
    assert_eq!(packer.rectangles().len(), (first + second) as usize);
}

#[test]
fn raster_run_burns_every_rectangle_and_spares_the_ring() {
    let mut rng = SmallRng::seed_from_u64(4);
    let mut packer = RectanglePacker::new(window()).unwrap();
    let fresh = RectanglePacker::new(window()).unwrap();
    let kept: u32 = packer.attempt_placement(&mut rng, 2000);
    assert!(kept > 50);
    let buffer = packer.image_buffer().unwrap();
    let at_start = fresh.image_buffer().unwrap();
    for r in packer.rectangles().iter() {
        let fp = r.footprint(&window(), 0);
        assert!(0 <= fp.left && fp.right < 1000 && 0 <= fp.top && fp.bottom < 1000);
        for col in fp.left..=fp.right {
            for row in fp.top..=fp.bottom {
                let color = buffer.cell(col as u32, row as u32).unwrap();
                assert!(color == RECT_FILL_COLOR || color == RECT_STROKE_COLOR);
            }
        }
    }
    for col in 0..1000u32 {
        for row in 0..1000u32 {
            if at_start.cell(col, row) == Some(RECT_HIDE_COLOR) {
                assert_eq!(buffer.cell(col, row), Some(RECT_HIDE_COLOR));
            }
        }
    }
}

#[test]
fn same_seed_packs_the_same_rectangles() {
    let mut one = RectanglePacker::new(window()).unwrap();
    let mut two = RectanglePacker::new(window()).unwrap();
    let kept_one: u32 = one.attempt_placement(&mut SmallRng::seed_from_u64(31), 400);
    let kept_two: u32 = two.attempt_placement(&mut SmallRng::seed_from_u64(31), 400);
    assert_eq!(kept_one, kept_two);
    assert_eq!(one.rectangles(), two.rectangles());
    assert_eq!(one.image_buffer().unwrap().samples(), two.image_buffer().unwrap().samples());
}

#[test]
fn reading_twice_gives_the_same_packer() {
    let mut rng = SmallRng::seed_from_u64(12);
    let mut packer = RectanglePacker::new(window()).unwrap();
    let _kept: u32 = packer.attempt_placement(&mut rng, 200);
    let first: Vec<Rectangle> = packer.rectangles().clone();
    let second: Vec<Rectangle> = packer.rectangles().clone();
    assert_eq!(first, second);
    let cells: Vec<u8> = packer.image_buffer().unwrap().samples().to_vec();
    assert_eq!(packer.image_buffer().unwrap().samples(), &cells[..]);
    assert_eq!(packer.boundary(), packer.boundary());
}
