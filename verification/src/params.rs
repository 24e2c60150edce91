//! Fixed simulation parameters.
//!
//! Distances are in centipixels (1/100 of a pixel), speeds in centipixels
//! per tick, and the traffic-light durations in ticks.  The simulated area
//! is known at build time and threaded through the path synthesizer and
//! spawn-position calculation from here.

use vstd::prelude::*;

verus! {

/// Width of the simulated area.
pub const WIDTH: i64 = 100000;
/// Height of the simulated area.
pub const HEIGHT: i64 = 100000;

/// Speed cap of every vehicle.
pub const MAX_SPEED: i64 = 500;
/// Speed gained per tick while rolling.
pub const ACCELERATION: i64 = 15;
/// Speed lost per tick while stopped.
pub const DECELERATION: i64 = 30;

/// A waypoint counts as reached within this distance.
pub const DISTANCE_THRESHOLD: i64 = 500;

/// Length of a vehicle footprint, along its heading.
pub const CAR_WIDTH: i64 = 5000;
/// Breadth of a vehicle footprint, across its heading.
pub const CAR_HEIGHT: i64 = 3300;
/// Width of one lane.
pub const LANE_WIDTH: i64 = CAR_HEIGHT * 2;

/// Number of waypoints of every path; divisible by 3 so the approach,
/// maneuver and departure phases align exactly.
pub const NUM_PATH_POINTS: usize = 24;

/// Following gap under which a vehicle stops behind a peer.
pub const FOLLOW_GAP: i64 = CAR_WIDTH * 2;
/// Separations at or under this are treated as coincident spawns, not as
/// a vehicle to stop behind.
pub const MIN_GAP: i64 = 300;
/// Cap on squared separations: everything at or beyond it is simply far.
pub const FAR_GAP_SQ: i64 = 400000000;

/// Numeric range of vehicle positions; a coordinate saturates here, far
/// outside the simulated area.
pub const POS_LIMIT: i64 = 1000000000;
/// Bound on the coordinates of every generated waypoint.
pub const PATH_COORD_LIMIT: i64 = 1000000;

/// Ticks a phase stays green.
pub const GREEN_TICKS: u64 = 240;
/// Ticks a phase stays yellow before switching.
pub const YELLOW_TICKS: u64 = 60;

} // verus!