//! The per-tick vehicle state machine: speed bounds, the light stop, the
//! commitment point, car following, and heading smoothing.

use traffic_sim::car::Car;
use traffic_sim::controller::TrafficLightController;
use traffic_sim::movement::{Direction, Origin};
use traffic_sim::params::{ACCELERATION, MAX_SPEED};

#[test]
fn a_fresh_vehicle_spawns_at_rest_on_its_edge() {
    let car = Car::new(7, Origin::North, Direction::Straight);
    assert_eq!(car.id, 7);
    assert_eq!(car.position, (40100, -2500));
    assert_eq!(car.rotation, 9000);
    assert_eq!(car.target_rotation, 9000);
    assert_eq!(car.speed, 0);
    assert_eq!(car.path_index, 1);
    assert_eq!(car.path_index_at_intersection, 9);
    assert!(!car.stopped);
    assert!(!car.finished);
    assert!(!car.through_intersection);
}

#[test]
fn speed_rises_by_the_increment_up_to_the_cap_and_never_beyond() {
    let mut car = Car::new(0, Origin::North, Direction::Straight);
    let mut light = TrafficLightController::new();
    let peers: Vec<Car> = Vec::new();
    let mut last = car.speed;
    for _ in 0..100 {
        car.update(&peers, &mut light);
        assert!(0 <= car.speed && car.speed <= MAX_SPEED);
        if last < MAX_SPEED {
            assert_eq!(car.speed, (last + ACCELERATION).min(MAX_SPEED));
            assert!(car.speed > last);
        } else {
            assert_eq!(car.speed, MAX_SPEED);
        }
        last = car.speed;
    }
    assert_eq!(car.speed, MAX_SPEED);
}

#[test]
fn speed_falls_by_the_decrement_down_to_zero_and_never_below() {
    // A left turner holds at the stop line under the north-south
    // through phase: its group is red.
    let mut car = Car::new(0, Origin::North, Direction::Left);
    car.path_index = 8;
    car.speed = 500;
    let mut light = TrafficLightController::new();
    let peers: Vec<Car> = Vec::new();
    let mut last = car.speed;
    for _ in 0..30 {
        car.update(&peers, &mut light);
        assert!(car.stopped);
        assert!(car.speed >= 0);
        if last > 0 {
            assert_eq!(car.speed, (last - 30).max(0));
            assert!(car.speed < last);
        } else {
            assert_eq!(car.speed, 0);
        }
        last = car.speed;
    }
    assert_eq!(car.speed, 0);
}

#[test]
fn first_tick_moves_along_the_spawn_heading() {
    let mut car = Car::new(0, Origin::North, Direction::Straight);
    let mut light = TrafficLightController::new();
    let peers: Vec<Car> = Vec::new();
    car.update(&peers, &mut light);
    // Heading 90 degrees: all of the new speed goes into y.
    assert_eq!(car.speed, ACCELERATION);
    assert_eq!(car.position, (40100, -2500 + ACCELERATION));
    assert_eq!(car.rotation, 9000);
}

#[test]
fn red_light_holds_a_vehicle_at_the_stop_line() {
    let mut car = Car::new(0, Origin::North, Direction::Left);
    car.path_index = 8;
    let mut light = TrafficLightController::new();
    let peers: Vec<Car> = Vec::new();
    car.update(&peers, &mut light);
    assert!(car.stopped);
    assert!(!car.automatically_stopped);
    assert!(!car.through_intersection);
    assert_eq!(car.speed, 0);
}

#[test]
fn a_vehicle_before_the_stop_line_keeps_rolling_on_red() {
    let mut car = Car::new(0, Origin::North, Direction::Left);
    assert_eq!(car.path_index, 1);
    let mut light = TrafficLightController::new();
    let peers: Vec<Car> = Vec::new();
    car.update(&peers, &mut light);
    assert!(!car.stopped);
    assert_eq!(car.speed, ACCELERATION);
}

#[test]
fn a_committed_vehicle_ignores_the_red_light() {
    let mut car = Car::new(0, Origin::North, Direction::Left);
    car.path_index = 8;
    let mut light = TrafficLightController::new();
    let peers: Vec<Car> = Vec::new();
    car.update(&peers, &mut light);
    assert!(car.stopped);
    // Push the cursor past the commitment point by direct injection:
    // the group is still red, but the vehicle must no longer stop for
    // the light.
    car.path_index = 9;
    car.update(&peers, &mut light);
    assert!(car.through_intersection);
    assert!(!car.stopped);
}

#[test]
fn through_vehicles_never_reenter_a_light_stop() {
    let mut car = Car::new(0, Origin::North, Direction::Left);
    car.path_index = 8;
    car.through_intersection = true;
    let mut light = TrafficLightController::new();
    let peers: Vec<Car> = Vec::new();
    for _ in 0..5 {
        car.update(&peers, &mut light);
        assert!(car.through_intersection);
        assert!(!car.stopped);
    }
}

#[test]
fn passing_the_commitment_point_releases_the_reservation() {
    let mut car = Car::new(0, Origin::North, Direction::Straight);
    let mut light = TrafficLightController::new();
    let peers: Vec<Car> = Vec::new();
    car.update(&peers, &mut light);
    // The green query registered the group (North is origin index 0,
    // Straight is maneuver index 2).
    assert!(light.reserved[2]);
    car.path_index = 10;
    car.update(&peers, &mut light);
    assert!(car.through_intersection);
    assert!(!light.reserved[2]);
}

#[test]
fn a_trailing_vehicle_stops_within_one_tick_and_releases_within_one() {
    let mut follower = Car::new(0, Origin::North, Direction::Straight);
    let mut leader = Car::new(1, Origin::North, Direction::Straight);
    // The leader sits half a following gap ahead in the same lane.
    leader.position = (40100, 2500);
    let mut light = TrafficLightController::new();
    let peers = vec![follower.clone(), leader.clone()];
    follower.update(&peers, &mut light);
    assert!(follower.stopped);
    assert!(follower.automatically_stopped);
    // The leader pulls far ahead: the follower releases within a tick.
    leader.position = (40100, 60000);
    let peers = vec![follower.clone(), leader.clone()];
    follower.update(&peers, &mut light);
    assert!(!follower.stopped);
}

#[test]
fn coincident_vehicles_do_not_trigger_a_following_stop() {
    let mut follower = Car::new(0, Origin::North, Direction::Straight);
    let leader = {
        let mut c = Car::new(1, Origin::North, Direction::Straight);
        c.position = follower.position;
        c
    };
    let mut light = TrafficLightController::new();
    let peers = vec![follower.clone(), leader.clone()];
    follower.update(&peers, &mut light);
    assert!(!follower.stopped);
}

#[test]
fn vehicles_of_another_group_do_not_trigger_a_following_stop() {
    let mut follower = Car::new(0, Origin::North, Direction::Straight);
    let mut other = Car::new(1, Origin::North, Direction::Left);
    other.position = (follower.position.0, follower.position.1 + 5000);
    let mut light = TrafficLightController::new();
    let peers = vec![follower.clone(), other.clone()];
    follower.update(&peers, &mut light);
    assert!(!follower.stopped);
}

#[test]
fn heading_interpolation_wraps_through_the_short_arc() {
    let mut car = Car::new(0, Origin::North, Direction::Straight);
    car.rotation = 17000;
    car.target_rotation = -17000;
    let mut light = TrafficLightController::new();
    let peers: Vec<Car> = Vec::new();
    car.update(&peers, &mut light);
    // From 170 degrees toward -170 degrees: half of the short 20-degree
    // arc, through 180, not back through zero.
    assert_eq!(car.rotation, 18000);
    car.update(&peers, &mut light);
    assert_eq!(car.rotation, 18500);
}

#[test]
fn finishing_wraps_the_cursor_and_flags_the_vehicle() {
    let mut car = Car::new(0, Origin::North, Direction::Straight);
    car.through_intersection = true;
    car.path_index = 23;
    // Place the vehicle on its last waypoint so the cursor wraps.
    let last = car.path[23];
    car.position = last;
    let mut light = TrafficLightController::new();
    let peers: Vec<Car> = Vec::new();
    car.update(&peers, &mut light);
    assert!(car.finished);
    assert_eq!(car.path_index, 0);
}

#[test]
fn a_waiting_vehicle_crosses_on_yellow() {
    let mut car = Car::new(0, Origin::North, Direction::Straight);
    car.path_index = 9;
    let mut light = TrafficLightController::new();
    // Run the green out so the north-south through set is yellow.
    for _ in 0..241 {
        light.tick();
    }
    assert!(light.yellow);
    let peers: Vec<Car> = Vec::new();
    car.update(&peers, &mut light);
    assert!(car.through_intersection);
    assert!(!car.stopped);
}
