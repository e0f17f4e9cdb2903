use space_menace::components::bounding_box::BoundingBox;
use space_menace::components::collision::{
    attribute, compute_correction, resolve_axis, Boundary, CollideeDetails, CollideeNew,
    ColliderNew,
};
use space_menace::math::{magnitude_of, Axis, Vector2};

/// World units are tenths in these tests.
fn units(v: f32) -> i32 {
    (v * 10.0).round() as i32
}

fn boxed(position: (i32, i32), old_position: (i32, i32), half_size: (i32, i32)) -> BoundingBox {
    BoundingBox {
        position: Vector2::new(position.0, position.1),
        old_position: Vector2::new(old_position.0, old_position.1),
        half_size: Vector2::new(half_size.0, half_size.1),
    }
}

fn resting(position: (i32, i32), half_size: (i32, i32)) -> BoundingBox {
    boxed(position, position, half_size)
}

fn v(x: i32, y: i32) -> Vector2 {
    Vector2::new(x, y)
}

#[test]
fn new_box_rests_at_its_position() {
    let made = BoundingBox::new(v(3, -4), v(5, 6)).unwrap();
    assert_eq!(made.position, v(3, -4));
    assert_eq!(made.old_position, v(3, -4));
    assert_eq!(made.half_size, v(5, 6));
    assert!(made.is_well_formed());
}

#[test]
fn new_box_rejects_degenerate_extents() {
    assert_eq!(BoundingBox::new(v(0, 0), v(0, 1)), None);
    assert_eq!(BoundingBox::new(v(0, 0), v(1, 0)), None);
    assert_eq!(BoundingBox::new(v(0, 0), v(-1, 1)), None);
    assert_eq!(BoundingBox::new(v(0, 0), v(1, -7)), None);
    assert!(BoundingBox::new(v(0, 0), v(1, 1)).is_some());
    assert!(!boxed((0, 0), (0, 0), (0, 3)).is_well_formed());
}

#[test]
fn overlap_test_reads_old_positions() {
    let a = boxed((100, 100), (0, 0), (10, 10));
    let b = boxed((-100, -100), (19, 20), (10, 10));
    assert!(a.overlapped_before(&b, Axis::Horizontal));
    assert!(!a.overlapped_before(&b, Axis::Vertical));
}

#[test]
fn overlap_test_is_strict() {
    let a = resting((0, 0), (10, 10));
    let touching = resting((20, 0), (10, 10));
    assert!(!a.overlapped_before(&touching, Axis::Horizontal));
    assert_eq!(a.overlap(&touching, Axis::Horizontal), 0);
    assert!(!a.is_overlapping_with(&touching));
}

#[test]
fn overlap_is_safe_distance_less_distance() {
    let a = resting((0, 0), (10, 4));
    let b = resting((-13, 30), (5, 6));
    assert_eq!(a.overlap(&b, Axis::Horizontal), 2);
    assert_eq!(a.overlap(&b, Axis::Vertical), -20);
    assert_eq!(b.overlap(&a, Axis::Horizontal), 2);
}

#[test]
fn magnitude_drops_the_sign() {
    assert_eq!(magnitude_of(-7), 7);
    assert_eq!(magnitude_of(7), 7);
    assert_eq!(magnitude_of(0), 0);
}

#[test]
fn overlap_on_x_only_resolves_vertically() {
    let a = resting((units(0.0), units(0.0)), (units(1.0), units(1.0)));
    let b = resting((units(0.5), units(5.0)), (units(1.0), units(1.0)));
    assert!(a.overlapped_before(&b, Axis::Horizontal));
    assert!(!a.overlapped_before(&b, Axis::Vertical));
    assert_eq!(resolve_axis(&a, &b), Axis::Vertical);
    // The mover has risen into the obstacle during the tick.
    let risen = boxed((units(0.0), units(3.5)), (units(0.0), units(0.0)), (units(1.0), units(1.0)));
    assert_eq!(resolve_axis(&risen, &b), Axis::Vertical);
    let mut record = CollideeNew::default();
    record.set_collidee_details("Platform".to_string(), &risen, &b, v(0, 3), v(0, 0));
    assert!(record.horizontal.is_none());
    assert_eq!(record.vertical.unwrap().correction, units(0.5) as i64);
}

#[test]
fn overlap_on_y_only_resolves_horizontally() {
    let a = resting((units(0.0), units(0.0)), (units(1.0), units(1.0)));
    let b = resting((units(5.0), units(0.5)), (units(1.0), units(1.0)));
    assert!(!a.overlapped_before(&b, Axis::Horizontal));
    assert!(a.overlapped_before(&b, Axis::Vertical));
    assert_eq!(resolve_axis(&a, &b), Axis::Horizontal);
    // The mover has run into the obstacle during the tick.
    let run = boxed((units(3.5), units(0.0)), (units(0.0), units(0.0)), (units(1.0), units(1.0)));
    assert_eq!(resolve_axis(&run, &b), Axis::Horizontal);
    let mut record = CollideeNew::default();
    record.set_collidee_details("Wall".to_string(), &run, &b, v(3, 0), v(0, 0));
    assert_eq!(record.horizontal.unwrap().correction, units(0.5) as i64);
    assert!(record.vertical.is_none());
}

#[test]
fn pair_without_overlap_is_not_recorded() {
    let a = resting((0, 0), (1, 1));
    let b = resting((10, 10), (1, 1));
    let mut record = CollideeNew::default();
    record.set_collidee_details("Crate".to_string(), &a, &b, v(1, 0), v(0, 0));
    assert_eq!(record.horizontal, None);
    assert_eq!(record.vertical, None);
}

#[test]
fn pair_that_overlapped_before_but_not_now_is_not_recorded() {
    let a = boxed((40, 0), (0, 0), (10, 10));
    let b = boxed((0, 0), (5, 5), (10, 10));
    assert!(a.overlapped_before(&b, Axis::Horizontal));
    assert!(a.overlapped_before(&b, Axis::Vertical));
    let mut record = CollideeNew::default();
    record.set_collidee_details("Crate".to_string(), &a, &b, v(4, 0), v(0, 0));
    assert_eq!(record, CollideeNew::default());
}

#[test]
fn pair_that_touches_along_one_axis_only_keeps_earlier_outcome() {
    let a = boxed((0, 0), (-20, 0), (10, 10));
    let wall = resting((15, 0), (10, 10));
    let above = resting((5, 20), (10, 10));
    let mut record = CollideeNew::default();
    record.set_collidee_details("Wall".to_string(), &a, &wall, v(2, 0), v(0, 0));
    let kept = record.clone();
    assert!(kept.horizontal.is_some());
    record.set_collidee_details("Above".to_string(), &a, &above, v(2, 0), v(0, 0));
    assert_eq!(record, kept);
}

#[test]
fn fresh_crossing_resolves_shallower_axis() {
    // overlap.x = 0.2, overlap.y = 0.5
    let a = boxed((0, 0), (-1000, -1000), (units(1.0), units(1.0)));
    let b = resting((units(1.8), units(1.5)), (units(1.0), units(1.0)));
    assert!(!a.overlapped_before(&b, Axis::Horizontal));
    assert!(!a.overlapped_before(&b, Axis::Vertical));
    assert_eq!(a.overlap(&b, Axis::Horizontal), units(0.2) as i64);
    assert_eq!(a.overlap(&b, Axis::Vertical), units(0.5) as i64);
    assert_eq!(resolve_axis(&a, &b), Axis::Horizontal);
}

#[test]
fn fresh_crossing_with_deeper_x_resolves_vertically() {
    let a = boxed((0, 0), (-1000, -1000), (10, 10));
    let b = resting((15, 18), (10, 10));
    assert_eq!(resolve_axis(&a, &b), Axis::Vertical);
}

#[test]
fn fresh_crossing_tie_resolves_horizontally() {
    let a = boxed((0, 0), (-1000, -1000), (10, 10));
    let b = resting((17, -17), (10, 10));
    assert_eq!(resolve_axis(&a, &b), Axis::Horizontal);
}

#[test]
fn fresh_crossing_compares_magnitudes() {
    // The boxes are apart by 1 along x and penetrate by 5 along y.
    let a = boxed((0, 0), (-1000, -1000), (10, 10));
    let b = resting((21, 15), (10, 10));
    assert_eq!(a.overlap(&b, Axis::Horizontal), -1);
    assert_eq!(resolve_axis(&a, &b), Axis::Horizontal);
}

#[test]
fn overlap_on_both_axes_resolves_vertically() {
    let a = resting((0, 0), (10, 10));
    let b = resting((5, 5), (10, 10));
    assert_eq!(resolve_axis(&a, &b), Axis::Vertical);
}

#[test]
fn share_is_overlap_times_speed_over_closing_speed() {
    assert_eq!(attribute(8, 3, 4), 6);
    assert_eq!(attribute(8, -3, 4), -6);
    assert_eq!(attribute(-8, 3, 4), -6);
    assert_eq!(attribute(-8, -3, 4), 6);
    assert_eq!(attribute(10, 5, 5), 10);
    assert_eq!(attribute(10, 0, 5), 0);
}

#[test]
fn share_rounds_towards_zero() {
    assert_eq!(attribute(5, 3, 4), 3);
    assert_eq!(attribute(5, -3, 4), -3);
    assert_eq!(attribute(-5, 3, 4), -3);
    assert_eq!(attribute(1, 1, 2), 0);
    assert_eq!(attribute(-1, 1, 2), 0);
}

#[test]
fn share_without_closing_speed_is_whole_overlap() {
    assert_eq!(attribute(7, 0, 0), 7);
    assert_eq!(attribute(-7, 12, 0), -7);
    assert_eq!(attribute(0, 5, 0), 0);
}

#[test]
fn share_stays_in_range_at_the_limits() {
    assert_eq!(attribute(4294967294, i32::MIN, 1), -9223372032559808512);
    assert_eq!(attribute(-4294967294, i32::MIN, 1), 9223372032559808512);
    assert_eq!(attribute(4294967294, i32::MAX, 4294967295), 2147483646);
}

#[test]
fn correction_uses_the_velocity_of_the_axis() {
    let a = boxed((38, 35), (0, 0), (10, 10));
    let b = resting((50, 50), (10, 10));
    // overlap.x = 8, overlap.y = 5
    assert_eq!(compute_correction(&a, &b, v(3, -3), v(-1, 1), Axis::Horizontal), 6);
    assert_eq!(compute_correction(&a, &b, v(3, -3), v(-1, 1), Axis::Vertical), -3);
}

#[test]
fn correction_can_exceed_overlap_when_the_obstacle_flees() {
    let a = resting((0, 0), (10, 10));
    let b = resting((12, 0), (10, 10));
    // The mover runs at 4, the obstacle at 3: the pair closes at 1.
    assert_eq!(compute_correction(&a, &b, v(4, 0), v(3, 0), Axis::Horizontal), 32);
}

#[test]
fn correction_never_exceeds_overlap_when_mover_is_no_faster_than_closing() {
    let a = boxed((38, 35), (0, 0), (10, 10));
    let b = resting((50, 50), (10, 10));
    let speeds = [-9, -4, -1, 0, 1, 2, 7, 9];
    for va in speeds {
        for vb in speeds {
            let closing = magnitude_of((va - vb) as i64);
            if closing != 0 && magnitude_of(va as i64) > closing {
                continue;
            }
            for axis in [Axis::Horizontal, Axis::Vertical] {
                let owed = compute_correction(&a, &b, v(va, va), v(vb, vb), axis);
                assert!(magnitude_of(owed) <= magnitude_of(a.overlap(&b, axis)));
            }
        }
    }
}

#[test]
fn equal_velocities_take_whole_overlap() {
    let a = boxed((38, 35), (0, 0), (10, 10));
    let b = resting((50, 50), (10, 10));
    assert_eq!(compute_correction(&a, &b, v(5, -2), v(5, -2), Axis::Horizontal), 8);
    assert_eq!(compute_correction(&a, &b, v(5, -2), v(5, -2), Axis::Vertical), 5);
    assert_eq!(compute_correction(&a, &b, v(0, 0), v(0, 0), Axis::Horizontal), 8);
    let mut record = CollideeNew::default();
    assert!(record.detect("Crate".to_string(), &a, &b, v(0, 0), v(0, 0)));
    assert_eq!(record.vertical.unwrap().correction, 5);
}

#[test]
fn resting_mover_owes_nothing_to_a_moving_obstacle() {
    let a = resting((0, 0), (10, 10));
    let b = resting((12, 0), (10, 10));
    assert_eq!(compute_correction(&a, &b, v(0, 0), v(-6, 0), Axis::Horizontal), 0);
}

#[test]
fn correction_against_resting_obstacle_leaves_boxes_touching() {
    let b = resting((50, 0), (10, 10));
    let from_left = boxed((38, 0), (30, 0), (10, 10));
    let owed = compute_correction(&from_left, &b, v(8, 0), v(0, 0), Axis::Horizontal);
    assert_eq!(owed, 8);
    let moved = resting((38 - owed as i32, 0), (10, 10));
    assert_eq!(moved.overlap(&b, Axis::Horizontal), 0);
    let from_right = boxed((62, 0), (70, 0), (10, 10));
    let owed = compute_correction(&from_right, &b, v(-8, 0), v(0, 0), Axis::Horizontal);
    assert_eq!(owed, -8);
    let moved = resting((62 - owed as i32, 0), (10, 10));
    assert_eq!(moved.overlap(&b, Axis::Horizontal), 0);
}

#[test]
fn details_hold_the_obstacle_as_it_was() {
    let a = boxed((38, 35), (0, 0), (10, 10));
    let b = boxed((50, 50), (50, 51), (10, 12));
    let mut record = CollideeNew::default();
    record.set_collidee_details("Pincer".to_string(), &a, &b, v(0, 4), v(0, -4));
    assert_eq!(record.horizontal, None);
    assert_eq!(
        record.vertical,
        Some(CollideeDetails {
            name: "Pincer".to_string(),
            velocity: v(0, -4),
            bounding_box: b,
            correction: 3,
        })
    );
}

#[test]
fn recording_overwrites_only_the_resolved_slot() {
    let a = boxed((0, 0), (-20, 0), (10, 10));
    let mut record = CollideeNew::default();
    let wall = resting((15, 0), (10, 10));
    record.set_collidee_details("Wall".to_string(), &a, &wall, v(2, 0), v(0, 0));
    assert_eq!(record.horizontal.as_ref().unwrap().name, "Wall");
    assert_eq!(record.horizontal.as_ref().unwrap().correction, 5);
    assert_eq!(record.vertical, None);
    let floor = resting((-15, -15), (10, 10));
    record.set_collidee_details("Floor".to_string(), &a, &floor, v(0, -2), v(0, 0));
    assert_eq!(record.horizontal.as_ref().unwrap().name, "Wall");
    assert_eq!(record.vertical.as_ref().unwrap().name, "Floor");
    assert_eq!(record.vertical.as_ref().unwrap().correction, -5);
    let ledge = resting((-14, -15), (10, 10));
    record.set_collidee_details("Ledge".to_string(), &a, &ledge, v(0, -2), v(0, 0));
    assert_eq!(record.horizontal.as_ref().unwrap().name, "Wall");
    assert_eq!(record.vertical.as_ref().unwrap().name, "Ledge");
}

#[test]
fn separate_pair_fills_no_slot() {
    let a = resting((0, 0), (10, 10));
    let far = resting((100, 100), (10, 10));
    let beside = resting((20, 0), (10, 10));
    let above = resting((0, 25), (10, 10));
    let mut record = CollideeNew::default();
    assert!(!record.detect("Far".to_string(), &a, &far, v(1, 1), v(0, 0)));
    assert!(!record.detect("Beside".to_string(), &a, &beside, v(1, 1), v(0, 0)));
    assert!(!record.detect("Above".to_string(), &a, &above, v(1, 1), v(0, 0)));
    assert_eq!(record, CollideeNew::default());
}

#[test]
fn separate_pair_keeps_earlier_outcome() {
    let a = boxed((38, 35), (0, 0), (10, 10));
    let b = resting((50, 50), (10, 10));
    let far = resting((500, 500), (10, 10));
    let mut record = CollideeNew::default();
    assert!(record.detect("Crate".to_string(), &a, &b, v(0, 3), v(0, -1)));
    let kept = record.clone();
    assert!(!record.detect("Far".to_string(), &a, &far, v(0, 3), v(0, -1)));
    assert_eq!(record, kept);
}

#[test]
fn fresh_crossing_is_detected() {
    let a = boxed((40, 40), (0, 0), (10, 10));
    let b = resting((50, 50), (10, 10));
    assert!(!a.overlapped_before(&b, Axis::Horizontal));
    assert!(!a.overlapped_before(&b, Axis::Vertical));
    let mut record = CollideeNew::default();
    assert!(record.detect("Crate".to_string(), &a, &b, v(4, 4), v(0, 0)));
    assert_eq!(record.horizontal.unwrap().correction, 10);
    assert_eq!(record.vertical, None);
}

#[test]
fn detection_twice_gives_the_same_record() {
    let a = boxed((38, 35), (0, 0), (10, 10));
    let b = resting((50, 50), (10, 10));
    let mut once = CollideeNew::default();
    once.detect("Crate".to_string(), &a, &b, v(3, -3), v(-1, 1));
    let mut twice = once.clone();
    twice.detect("Crate".to_string(), &a, &b, v(3, -3), v(-1, 1));
    assert_eq!(once, twice);
    let mut other = CollideeNew::default();
    other.detect("Crate".to_string(), &a, &b, v(3, -3), v(-1, 1));
    assert_eq!(once, other);
}

#[test]
fn clear_empties_both_slots() {
    let a = boxed((0, 0), (-20, 0), (10, 10));
    let mut record = CollideeNew::default();
    record.set_collidee_details("Wall".to_string(), &a, &resting((15, 0), (10, 10)), v(2, 0), v(0, 0));
    record.set_collidee_details("Floor".to_string(), &a, &resting((-15, -15), (10, 10)), v(0, -2), v(0, 0));
    assert!(record.horizontal.is_some() && record.vertical.is_some());
    record.clear();
    assert_eq!(record, CollideeNew::default());
    assert!(record.horizontal.is_none() && record.vertical.is_none());
}

#[test]
fn extreme_coordinates_do_not_overflow() {
    let a = resting((i32::MIN, i32::MIN), (i32::MAX, i32::MAX));
    let b = resting((i32::MAX, i32::MAX), (i32::MAX, i32::MAX));
    assert_eq!(a.overlap(&b, Axis::Horizontal), -1);
    assert!(!a.overlapped_before(&b, Axis::Vertical));
    let c = resting((i32::MIN, i32::MIN), (i32::MAX, i32::MAX));
    assert_eq!(a.overlap(&c, Axis::Horizontal), 4294967294);
    let mut record = CollideeNew::default();
    assert!(record.detect("Twin".to_string(), &a, &c, v(i32::MIN, i32::MIN), v(i32::MAX, i32::MAX)));
    // 4294967294 * -2147483648 / 4294967295, rounded towards zero
    assert_eq!(record.vertical.unwrap().correction, -2147483647);
}

#[test]
fn boundary_keeps_its_edges() {
    let boundary = Boundary::new(-5, 100, 352, 0);
    assert_eq!(boundary.left, -5);
    assert_eq!(boundary.right, 100);
    assert_eq!(boundary.top, 352);
    assert_eq!(boundary.bottom, 0);
    assert!(boundary.is_well_formed());
    assert_eq!(boundary.lower_edge(Axis::Horizontal), -5);
    assert_eq!(boundary.upper_edge(Axis::Horizontal), 100);
    assert_eq!(boundary.lower_edge(Axis::Vertical), 0);
    assert_eq!(boundary.upper_edge(Axis::Vertical), 352);
}

#[test]
fn boundary_with_crossed_edges_is_not_well_formed() {
    let flat = Boundary { left: 0, right: 10, top: 5, bottom: 5 };
    let turned = Boundary { left: 10, right: 0, top: 5, bottom: 0 };
    let vast = Boundary { left: i32::MIN, right: i32::MAX, top: 5, bottom: 0 };
    assert!(!flat.is_well_formed());
    assert!(!turned.is_well_formed());
    assert!(!vast.is_well_formed());
    assert!(Boundary { left: i32::MIN, right: i32::MAX - 1, top: 5, bottom: 0 }.is_well_formed());
}

#[test]
fn boundary_box_reaches_right_and_top_edges() {
    let even = Boundary::new(0, 100, 60, -20).bounding_box();
    assert_eq!(even, resting((50, 20), (50, 40)));
    let odd = Boundary::new(0, 5, 1, 0).bounding_box();
    assert_eq!(odd, resting((2, 0), (3, 1)));
    let widest = Boundary::new(i32::MIN, i32::MAX - 1, 1, 0).bounding_box();
    assert_eq!(widest.position.x, -1);
    assert_eq!(widest.half_size.x, i32::MAX);
}

#[test]
fn box_inside_boundary_is_not_corrected() {
    let boundary = Boundary::new(0, 100, 100, 0);
    let inner = resting((50, 50), (10, 10));
    let flush = resting((90, 10), (10, 10));
    let mut record = CollideeNew::default();
    record.set_boundary_details("Level".to_string(), &inner, &boundary);
    record.set_boundary_details("Level".to_string(), &flush, &boundary);
    assert_eq!(record, CollideeNew::default());
    assert_eq!(boundary.excess_of(&inner, Axis::Horizontal), 0);
    assert_eq!(boundary.excess_of(&flush, Axis::Vertical), 0);
}

#[test]
fn box_beyond_right_edge_is_put_flush() {
    let boundary = Boundary::new(0, 100, 100, 0);
    let delta = 7;
    let bb = resting((90 + delta, 50), (10, 10));
    let mut record = CollideeNew::default();
    record.set_boundary_details("Level".to_string(), &bb, &boundary);
    let details = record.horizontal.unwrap();
    assert_eq!(details.correction, delta as i64);
    assert_eq!(bb.position.x as i64 - details.correction + bb.half_size.x as i64, 100);
    assert_eq!(details.name, "Level");
    assert_eq!(details.velocity, v(0, 0));
    assert_eq!(details.bounding_box, boundary.bounding_box());
    assert_eq!(record.vertical, None);
}

#[test]
fn box_beyond_left_edge_is_put_flush() {
    let boundary = Boundary::new(0, 100, 100, 0);
    let bb = resting((6, 50), (10, 10));
    let mut record = CollideeNew::default();
    record.set_boundary_details("Level".to_string(), &bb, &boundary);
    let details = record.horizontal.unwrap();
    assert_eq!(details.correction, -4);
    assert_eq!(bb.position.x as i64 - details.correction - bb.half_size.x as i64, 0);
    assert_eq!(record.vertical, None);
}

#[test]
fn box_beyond_top_and_bottom_edges_is_put_flush() {
    let boundary = Boundary::new(0, 100, 100, 0);
    let mut record = CollideeNew::default();
    record.set_boundary_details("Level".to_string(), &resting((50, 93), (10, 10)), &boundary);
    assert_eq!(record.horizontal, None);
    assert_eq!(record.vertical.as_ref().unwrap().correction, 3);
    record.set_boundary_details("Level".to_string(), &resting((50, -1), (10, 10)), &boundary);
    assert_eq!(record.vertical.as_ref().unwrap().correction, -11);
}

#[test]
fn box_beyond_a_corner_is_corrected_on_both_axes() {
    let boundary = Boundary::new(0, 100, 100, 0);
    let mut record = CollideeNew::default();
    record.set_boundary_details("Level".to_string(), &resting((95, 2), (10, 10)), &boundary);
    assert_eq!(record.horizontal.unwrap().correction, 5);
    assert_eq!(record.vertical.unwrap().correction, -8);
}

#[test]
fn box_too_wide_for_boundary_is_held_to_the_right_edge() {
    let boundary = Boundary::new(0, 10, 100, 0);
    assert_eq!(boundary.excess_of(&resting((5, 50), (20, 10)), Axis::Horizontal), 15);
}

#[test]
fn clamping_keeps_slots_of_uncrossed_axes() {
    let a = resting((95, 50), (10, 10));
    let floor = resting((95, 35), (10, 10));
    let mut record = CollideeNew::default();
    record.set_collidee_details("Floor".to_string(), &a, &floor, v(0, -2), v(0, 0));
    let kept = record.vertical.clone();
    assert!(kept.is_some());
    record.set_boundary_details("Level".to_string(), &a, &Boundary::new(0, 100, 100, 0));
    assert_eq!(record.vertical, kept);
    assert_eq!(record.horizontal.unwrap().correction, 5);
}

#[test]
fn collider_marker_carries_nothing() {
    assert_eq!(ColliderNew::default(), ColliderNew);
    assert_eq!(std::mem::size_of::<ColliderNew>(), 0);
}
