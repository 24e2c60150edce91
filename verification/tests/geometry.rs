//! Geometry: segment crossing, footprint vertices, rectangle overlap,
//! and the fixed-point trigonometry they rest on.

use traffic_sim::angle::{atan2_cd, cos_cd, rotate_toward, scale_trig, sin_cd};
use traffic_sim::car::Car;
use traffic_sim::geom::{ccw, line_intersect};

#[test]
fn crossing_segments_intersect() {
    let l1 = ((0, 0), (10, 10));
    let l2 = ((0, 10), (10, 0));
    assert!(line_intersect(l1, &l2));
}

#[test]
fn parallel_segments_do_not_intersect() {
    let l1 = ((0, 0), (10, 0));
    let l2 = ((0, 5), (10, 5));
    assert!(!line_intersect(l1, &l2));
}

#[test]
fn segment_intersection_is_symmetric() {
    let pairs = [
        (((0, 0), (10, 10)), ((0, 10), (10, 0))),
        (((0, 0), (10, 0)), ((0, 5), (10, 5))),
        (((-5, -5), (5, 5)), ((-5, 5), (5, -5))),
        (((0, 0), (100, 1)), ((50, -10), (50, 10))),
    ];
    for &(l1, l2) in pairs.iter() {
        assert_eq!(line_intersect(l1, &l2), line_intersect(l2, &l1));
    }
}

#[test]
fn a_segment_never_intersects_itself() {
    let l = ((3, 4), (10, -2));
    assert!(!line_intersect(l, &l));
}

#[test]
fn collinear_touching_segments_do_not_intersect() {
    let l1 = ((0, 0), (10, 0));
    let l2 = ((10, 0), (20, 0));
    assert!(!line_intersect(l1, &l2));
    assert!(!line_intersect(l2, &l1));
}

#[test]
fn segments_sharing_a_start_or_an_end_do_not_intersect() {
    assert!(!line_intersect(((0, 0), (10, 0)), &((0, 0), (0, 10))));
    assert!(!line_intersect(((0, 0), (10, 10)), &((20, 0), (10, 10))));
}

#[test]
fn ccw_orders_point_triples() {
    assert!(ccw((0, 0), (10, 0), (5, 5)));
    assert!(!ccw((0, 0), (10, 0), (5, -5)));
    assert!(!ccw((0, 0), (10, 0), (5, 0)));
}

#[test]
fn vertices_at_zero_heading_are_axis_aligned() {
    let v = Car::vertices_with_pos_and_rot((0, 0), 0);
    assert_eq!(v[0], (-2500, -1650));
    assert_eq!(v[1], (2500, -1650));
    assert_eq!(v[2], (2500, 1650));
    assert_eq!(v[3], (-2500, 1650));
}

#[test]
fn vertices_rotate_with_the_heading() {
    let v = Car::vertices_with_pos_and_rot((1000, 2000), 9000);
    assert_eq!(v[0], (1000 + 1650, 2000 - 2500));
    assert_eq!(v[1], (1000 + 1650, 2000 + 2500));
    assert_eq!(v[2], (1000 - 1650, 2000 + 2500));
    assert_eq!(v[3], (1000 - 1650, 2000 - 2500));
}

#[test]
fn nearby_cars_overlap_and_distant_cars_do_not() {
    assert!(Car::cars_intersect((0, 0), 0, (1000, 1000), 0));
    assert!(!Car::cars_intersect((0, 0), 0, (100000, 0), 0));
}

#[test]
fn overlap_is_reported_through_footprints() {
    let mut a = Car::new(0, traffic_sim::movement::Origin::North, traffic_sim::movement::Direction::Straight);
    let mut b = Car::new(1, traffic_sim::movement::Origin::North, traffic_sim::movement::Direction::Straight);
    a.position = (0, 0);
    a.rotation = 0;
    b.position = (2000, 500);
    b.rotation = 0;
    assert!(a.intersects_rect(b.vertices()));
    let cars = vec![a.clone(), b.clone()];
    assert!(a.overlaps_any(&cars));
    b.position = (50000, 50000);
    let cars = vec![a.clone(), b.clone()];
    assert!(!a.overlaps_any(&cars));
}

#[test]
fn sine_and_cosine_hit_the_cardinal_points() {
    assert_eq!(sin_cd(0), 0);
    assert_eq!(sin_cd(9000), 10000);
    assert_eq!(sin_cd(18000), 0);
    assert_eq!(sin_cd(27000), -10000);
    assert_eq!(sin_cd(-9000), -10000);
    assert_eq!(cos_cd(0), 10000);
    assert_eq!(cos_cd(9000), 0);
    assert_eq!(cos_cd(18000), -10000);
    assert_eq!(cos_cd(27000), 0);
}

#[test]
fn sine_matches_its_rational_approximation() {
    // One arc step is 11.25 degrees; the approximation gives 0.1967
    // where the true sine is 0.1951.
    assert_eq!(sin_cd(1125), 1967);
    // At 45 degrees it gives 0.7058 against 0.7071.
    assert_eq!(sin_cd(4500), 7058);
}

#[test]
fn atan2_recovers_the_cardinal_directions() {
    assert_eq!(atan2_cd(0, 1000), 0);
    assert_eq!(atan2_cd(1000, 0), 9000);
    assert_eq!(atan2_cd(0, -1000), 18000);
    assert_eq!(atan2_cd(-1000, 0), -9000);
    assert_eq!(atan2_cd(1000, 1000), 4500);
    assert_eq!(atan2_cd(0, 0), 0);
}

#[test]
fn trig_scaling_rounds_toward_zero() {
    assert_eq!(scale_trig(5000, 100), 50);
    assert_eq!(scale_trig(-5000, 100), -50);
    assert_eq!(scale_trig(9999, 1), 0);
    assert_eq!(scale_trig(10000, 500), 500);
}

#[test]
fn rotation_moves_halfway_toward_the_target() {
    assert_eq!(rotate_toward(0, 9000), 4500);
    assert_eq!(rotate_toward(4500, 9000), 6750);
    assert_eq!(rotate_toward(9000, 9000), 9000);
}
