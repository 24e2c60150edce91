//! Path synthesis: fixed length, determinism, monotone progression, and
//! exact waypoint values.

use traffic_sim::car::Car;
use traffic_sim::controller::SimplifiedCar;
use traffic_sim::movement::{group_index, Direction, Origin};
use traffic_sim::params::NUM_PATH_POINTS;
use traffic_sim::path::{
    generate_left_turn_path, generate_right_turn_path, generate_straight_path,
    generate_straight_path_third, get_position,
};

const ORIGINS: [Origin; 4] = [Origin::North, Origin::South, Origin::East, Origin::West];
const DIRECTIONS: [Direction; 3] = [Direction::Left, Direction::Right, Direction::Straight];

#[test]
fn every_path_has_the_configured_length() {
    for &origin in ORIGINS.iter() {
        for &direction in DIRECTIONS.iter() {
            let path = Car::calculate_path(&SimplifiedCar::new(origin, direction));
            assert_eq!(path.len(), NUM_PATH_POINTS);
        }
    }
}

#[test]
fn synthesis_is_deterministic() {
    for &origin in ORIGINS.iter() {
        for &direction in DIRECTIONS.iter() {
            let a = Car::calculate_path(&SimplifiedCar::new(origin, direction));
            let b = Car::calculate_path(&SimplifiedCar::new(origin, direction));
            assert_eq!(a, b);
        }
    }
}

#[test]
fn straight_path_has_exact_points() {
    let p = generate_straight_path(Origin::North);
    // Spawn lane: middle minus one and a half lane widths; half a car
    // length outside the top edge.
    assert_eq!(p[0], (40100, -2500));
    for i in 0..NUM_PATH_POINTS {
        assert_eq!(p[i], (40100, -2500 + i as i64 * 4270));
    }
}

#[test]
fn approach_third_has_exact_points() {
    let p = generate_straight_path_third(Origin::North, Direction::Left);
    assert_eq!(p.len(), 8);
    for i in 0..8 {
        assert_eq!(p[i], (46700, -2500 + i as i64 * 4087));
    }
}

#[test]
fn paths_progress_monotonically_from_the_spawn_edge() {
    for &origin in ORIGINS.iter() {
        for &direction in DIRECTIONS.iter() {
            let path = Car::calculate_path(&SimplifiedCar::new(origin, direction));
            let span = if direction == Direction::Straight {
                NUM_PATH_POINTS
            } else {
                8
            };
            for i in 1..span {
                let along = |p: (i64, i64)| match origin {
                    Origin::North => p.1,
                    Origin::South => -p.1,
                    Origin::East => -p.0,
                    Origin::West => p.0,
                };
                assert!(along(path[i]) > along(path[i - 1]));
            }
        }
    }
}

#[test]
fn path_steps_stay_within_the_turn_arc() {
    // No reversal discontinuity: consecutive waypoints stay within one
    // turn-arc step of each other (the widest gap of any phase).
    for &origin in ORIGINS.iter() {
        for &direction in DIRECTIONS.iter() {
            let path = Car::calculate_path(&SimplifiedCar::new(origin, direction));
            for i in 1..NUM_PATH_POINTS {
                let dx = path[i].0 - path[i - 1].0;
                let dy = path[i].1 - path[i - 1].1;
                assert!(dx * dx + dy * dy <= 20000 * 20000);
            }
        }
    }
}

#[test]
fn turn_arcs_hit_their_exact_quarter_turn_endpoints() {
    // The left-turn arc of a northbound vehicle ends (in traversal
    // order, it begins) at the angle where sine and cosine are exact:
    // the point one radius below the turn center.
    let left = generate_left_turn_path(Origin::North);
    assert_eq!(left[15], (69800, 53300));
    // The right-turn arc of a northbound vehicle starts at angle zero:
    // one radius to the right of its center.
    let right = generate_right_turn_path(Origin::North);
    assert_eq!(right[8], (33500, 30200));
}

#[test]
fn turn_paths_are_assembled_from_three_phases() {
    let left = generate_left_turn_path(Origin::North);
    let approach = generate_straight_path_third(Origin::North, Direction::Left);
    assert_eq!(&left[..8], &approach[..]);
    let right = generate_right_turn_path(Origin::South);
    let approach = generate_straight_path_third(Origin::South, Direction::Right);
    assert_eq!(&right[..8], &approach[..]);
}

#[test]
fn spawn_positions_sit_on_their_edges() {
    assert_eq!(get_position(Origin::North, Direction::Straight), (40100, -2500));
    assert_eq!(get_position(Origin::South, Direction::Left), (53300, 102500));
    assert_eq!(get_position(Origin::East, Direction::Right), (102500, 33500));
    assert_eq!(get_position(Origin::West, Direction::Straight), (-2500, 59900));
}

#[test]
fn direction_decodes_from_indices() {
    assert_eq!(Direction::from(0), Direction::Left);
    assert_eq!(Direction::from(1), Direction::Right);
    assert_eq!(Direction::from(2), Direction::Straight);
}

#[test]
fn waiting_point_index_is_one_third_in() {
    assert_eq!(
        Car::calculate_waiting_point_index(&SimplifiedCar::new(Origin::North, Direction::Left)),
        8
    );
    assert_eq!(
        Car::calculate_waiting_point_index(&SimplifiedCar::new(Origin::East, Direction::Right)),
        8
    );
    assert_eq!(
        Car::calculate_waiting_point_index(&SimplifiedCar::new(
            Origin::South,
            Direction::Straight
        )),
        9
    );
}

#[test]
fn movement_groups_have_distinct_indices() {
    let mut seen = vec![false; 12];
    for &origin in ORIGINS.iter() {
        for &direction in DIRECTIONS.iter() {
            let g = group_index(origin, direction);
            assert!(g < 12);
            assert!(!seen[g]);
            seen[g] = true;
        }
    }
}
