//! The intersection scheduler: phase cycling, fail-safe queries,
//! reservation bookkeeping, idempotent removal, and yellow clearance.

use traffic_sim::controller::{Phase, SimplifiedCar, TrafficLightController};
use traffic_sim::movement::{Direction, Origin};

#[test]
fn fresh_controller_serves_north_south_through() {
    let mut c = TrafficLightController::new();
    assert!(c.is_green(Origin::North, Direction::Straight));
    assert!(c.is_green(Origin::South, Direction::Right));
    assert!(!c.is_green(Origin::North, Direction::Left));
    assert!(!c.is_green(Origin::East, Direction::Straight));
    assert!(!c.is_green(Origin::West, Direction::Right));
    assert!(!c.is_yellow(Origin::North, Direction::Straight));
}

#[test]
fn green_query_registers_the_group() {
    let mut c = TrafficLightController::new();
    assert!(c.is_green(Origin::North, Direction::Straight));
    // North is origin index 0, Straight is maneuver index 2.
    assert!(c.reserved[2]);
    assert!(!c.is_green(Origin::East, Direction::Straight));
    assert!(!c.reserved[8]);
}

#[test]
fn remove_car_is_idempotent() {
    let mut c = TrafficLightController::new();
    assert!(c.is_green(Origin::South, Direction::Right));
    let id = SimplifiedCar::new(Origin::South, Direction::Right);
    c.remove_car(id);
    let phase = c.phase;
    let yellow = c.yellow;
    let ticks = c.ticks_left;
    let extended = c.extended;
    let reserved = c.reserved.clone();
    c.remove_car(id);
    assert_eq!(c.phase, phase);
    assert_eq!(c.yellow, yellow);
    assert_eq!(c.ticks_left, ticks);
    assert_eq!(c.extended, extended);
    assert_eq!(c.reserved, reserved);
}

#[test]
fn removing_an_untracked_group_is_a_no_op() {
    let mut c = TrafficLightController::new();
    let before = c.reserved.clone();
    c.remove_car(SimplifiedCar::new(Origin::West, Direction::Left));
    assert_eq!(c.reserved, before);
}

#[test]
fn phases_cycle_through_the_four_sets() {
    let mut c = TrafficLightController::new();
    assert_eq!(c.phase, Phase::NorthSouthThrough);
    // A full green (240 ticks plus the switch into yellow) and a full
    // yellow (60 ticks plus the switch) move to the next set.
    for _ in 0..302 {
        c.tick();
    }
    assert_eq!(c.phase, Phase::NorthSouthLeft);
    assert!(!c.yellow);
    for _ in 0..302 {
        c.tick();
    }
    assert_eq!(c.phase, Phase::EastWestThrough);
    for _ in 0..302 {
        c.tick();
    }
    assert_eq!(c.phase, Phase::EastWestLeft);
    for _ in 0..302 {
        c.tick();
    }
    assert_eq!(c.phase, Phase::NorthSouthThrough);
}

#[test]
fn yellow_follows_green_and_grants_yellow_queries() {
    let mut c = TrafficLightController::new();
    for _ in 0..241 {
        c.tick();
    }
    assert!(c.yellow);
    assert_eq!(c.phase, Phase::NorthSouthThrough);
    assert!(c.is_yellow(Origin::North, Direction::Straight));
    assert!(!c.is_green(Origin::North, Direction::Straight));
    assert!(!c.is_yellow(Origin::East, Direction::Straight));
}

#[test]
fn reserved_group_extends_yellow_before_the_switch() {
    let mut c = TrafficLightController::new();
    assert!(c.is_green(Origin::North, Direction::Straight));
    // Green runs out, yellow runs out: the reservation holds the phase
    // for one more yellow span.
    for _ in 0..302 {
        c.tick();
    }
    assert_eq!(c.phase, Phase::NorthSouthThrough);
    assert!(c.yellow);
    assert!(c.extended);
    // The extension runs out: the cycle moves on and drops the stale
    // reservation.
    for _ in 0..61 {
        c.tick();
    }
    assert_eq!(c.phase, Phase::NorthSouthLeft);
    assert!(!c.yellow);
    assert!(!c.reserved[2]);
}

#[test]
fn cleared_groups_do_not_delay_the_switch() {
    let mut c = TrafficLightController::new();
    assert!(c.is_green(Origin::North, Direction::Straight));
    c.remove_car(SimplifiedCar::new(Origin::North, Direction::Straight));
    for _ in 0..302 {
        c.tick();
    }
    assert_eq!(c.phase, Phase::NorthSouthLeft);
}
