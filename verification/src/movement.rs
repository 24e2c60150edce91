//! Movement groups: the edge a vehicle enters from and the maneuver it
//! performs.  Together they identify the lane and the right-of-way grant
//! the vehicle shares with its peers.

use vstd::prelude::*;

verus! {

/// The edge of the simulated area a vehicle spawns from; fixed for the
/// vehicle's lifetime.
#[derive(Clone, Copy, PartialEq, Eq, Hash, Debug, Structural)]
pub enum Origin {
    North,
    South,
    East,
    West,
}

/// The maneuver a vehicle performs; fixed for the vehicle's lifetime.
#[derive(Clone, Copy, PartialEq, Eq, Debug, Hash, Structural)]
pub enum Direction {
    Left,
    Right,
    Straight,
}

/// The maneuver encoded by index `i`.
pub open spec fn direction_from_spec(i: int) -> Direction {
    if i == 0 {
        Direction::Left
    } else if i == 1 {
        Direction::Right
    } else {
        Direction::Straight
    }
}

impl Direction {
    /// Decodes a maneuver index.  Only 0, 1 and 2 are valid encodings;
    /// anything else is a programmer error, ruled out before construction.
    pub fn from(i: usize) -> (d: Direction)
        requires
            i <= 2,
        ensures
            d == direction_from_spec(i as int),
    {
        match i {
            0 => Direction::Left,
            1 => Direction::Right,
            _ => Direction::Straight,
        }
    }
}

/// Number of movement groups: four origins times three maneuvers.
pub const NUM_GROUPS: usize = 12;

/// A distinct index in `[0, NUM_GROUPS)` for each movement group.
pub open spec fn group_index_spec(origin: Origin, direction: Direction) -> int {
    let o: int = match origin {
        Origin::North => 0,
        Origin::South => 1,
        Origin::East => 2,
        Origin::West => 3,
    };
    let d: int = match direction {
        Direction::Left => 0,
        Direction::Right => 1,
        Direction::Straight => 2,
    };
    o * 3 + d
}

/// Computes the movement-group index.
pub fn group_index(origin: Origin, direction: Direction) -> (g: usize)
    ensures
        g == group_index_spec(origin, direction),
        g < NUM_GROUPS,
{
    let o: usize = match origin {
        Origin::North => 0,
        Origin::South => 1,
        Origin::East => 2,
        Origin::West => 3,
    };
    let d: usize = match direction {
        Direction::Left => 0,
        Direction::Right => 1,
        Direction::Straight => 2,
    };
    o * 3 + d
}

} // verus!