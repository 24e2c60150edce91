//! Path synthesis: the fixed-length waypoint sequence a vehicle follows
//! from its spawn edge, through the intersection, into its exit lane.
//!
//! Every path has `NUM_PATH_POINTS` waypoints in three equal phases: a
//! straight approach, a turn arc (or continued straight run), and a
//! straight departure.  Synthesis is pure: the same origin and maneuver
//! always give the same path.

use vstd::prelude::*;

use crate::angle::{cos_cd, cos_cd_spec, scale_trig, scale_trig_spec, sin_cd, sin_cd_spec};
use crate::geom::pti;
use crate::movement::{Direction, Origin};
use crate::params::{CAR_WIDTH, HEIGHT, LANE_WIDTH, NUM_PATH_POINTS, PATH_COORD_LIMIT, WIDTH};

verus! {

/// Number of waypoints in each of the three phases: a third of
/// `NUM_PATH_POINTS`.
pub const PHASE_POINTS: usize = 8;

/// Gap between approach waypoints on a vertical (North/South) run: the
/// stretch from the spawn edge to the intersection,
/// `HEIGHT / 2 - LANE_WIDTH * 3 + CAR_WIDTH / 2`, split over one phase.
pub const APPROACH_GAP_V: i64 = 4087;
/// Gap between approach waypoints on a horizontal (East/West) run.
pub const APPROACH_GAP_H: i64 = 4087;

/// Gap between waypoints of a full straight crossing, vertical runs: the
/// stretch `HEIGHT + CAR_WIDTH / 2` split over the whole path.
pub const STRAIGHT_GAP_V: i64 = 4270;
/// Gap between waypoints of a full straight crossing, horizontal runs.
pub const STRAIGHT_GAP_H: i64 = 4270;

/// Offset of a turn center from the middle of the area, in each axis.
pub const TURN_CENTER_OFF: i64 = LANE_WIDTH * 3;
/// Radius of a left-turn arc: three and a half lane widths.
pub const LEFT_TURN_RADIUS: i64 = 23100;
/// Radius of a right-turn arc: half a lane width.
pub const RIGHT_TURN_RADIUS: i64 = 3300;

/// Horizontal shift that carries a departure run into the exit lane:
/// `WIDTH / 2` plus four lane widths.
pub const EXIT_SHIFT_X: i64 = 76400;
/// Vertical shift that carries a departure run into the exit lane.
pub const EXIT_SHIFT_Y: i64 = 76400;

/// Centidegrees each arc waypoint advances: a quarter turn split over one
/// phase.
pub const ARC_STEP: i64 = 1125;

/// The lane index a maneuver uses: 0 is the left-turn lane, 1 the
/// straight lane, 2 the right-turn lane.
pub open spec fn lane_offset(direction: Direction) -> int {
    match direction {
        Direction::Left => 0,
        Direction::Straight => 1,
        Direction::Right => 2,
    }
}

/// The spawn position of a vehicle: on its origin edge, half a car length
/// outside the area, laterally in the lane of its maneuver.
pub open spec fn position_spec(origin: Origin, direction: Direction) -> (int, int) {
    let off = lane_offset(direction);
    match origin {
        Origin::North => (WIDTH / 2 - LANE_WIDTH / 2 - off * LANE_WIDTH, -(CAR_WIDTH / 2)),
        Origin::South => (WIDTH / 2 + LANE_WIDTH / 2 + off * LANE_WIDTH, HEIGHT + CAR_WIDTH / 2),
        Origin::East => (WIDTH + CAR_WIDTH / 2, HEIGHT / 2 - LANE_WIDTH / 2 - off * LANE_WIDTH),
        Origin::West => (-(CAR_WIDTH / 2), HEIGHT / 2 + LANE_WIDTH / 2 + off * LANE_WIDTH),
    }
}

/// Computes the spawn position of a vehicle.
pub fn get_position(origin: Origin, direction: Direction) -> (p: (i64, i64))
    ensures
        pti(p) == position_spec(origin, direction),
        path_pt_in_range(p),
{
    let off: i64 = match direction {
        Direction::Left => 0,
        Direction::Straight => 1,
        Direction::Right => 2,
    };
    match origin {
        Origin::North => (WIDTH / 2 - LANE_WIDTH / 2 - off * LANE_WIDTH, -(CAR_WIDTH / 2)),
        Origin::South => (WIDTH / 2 + LANE_WIDTH / 2 + off * LANE_WIDTH, HEIGHT + CAR_WIDTH / 2),
        Origin::East => (WIDTH + CAR_WIDTH / 2, HEIGHT / 2 - LANE_WIDTH / 2 - off * LANE_WIDTH),
        Origin::West => (-(CAR_WIDTH / 2), HEIGHT / 2 + LANE_WIDTH / 2 + off * LANE_WIDTH),
    }
}

/// The `i`-th waypoint of an approach run: from the spawn position toward
/// the intersection, along the axis of the origin.
pub open spec fn approach_point_spec(origin: Origin, direction: Direction, i: int) -> (int, int) {
    let p = position_spec(origin, direction);
    match origin {
        Origin::North => (p.0, p.1 + i * APPROACH_GAP_V),
        Origin::South => (p.0, p.1 - i * APPROACH_GAP_V),
        Origin::East => (p.0 - i * APPROACH_GAP_H, p.1),
        Origin::West => (p.0 + i * APPROACH_GAP_H, p.1),
    }
}

/// The `i`-th waypoint of a full straight crossing.
pub open spec fn straight_point_spec(origin: Origin, i: int) -> (int, int) {
    let p = position_spec(origin, Direction::Straight);
    match origin {
        Origin::North => (p.0, p.1 + i * STRAIGHT_GAP_V),
        Origin::South => (p.0, p.1 - i * STRAIGHT_GAP_V),
        Origin::East => (p.0 - i * STRAIGHT_GAP_H, p.1),
        Origin::West => (p.0 + i * STRAIGHT_GAP_H, p.1),
    }
}

/// Center of the left-turn arc for an entry edge.
pub open spec fn left_turn_center(origin: Origin) -> (int, int) {
    match origin {
        Origin::North => (WIDTH / 2 + TURN_CENTER_OFF, HEIGHT / 2 - TURN_CENTER_OFF),
        Origin::South => (WIDTH / 2 - TURN_CENTER_OFF, HEIGHT / 2 + TURN_CENTER_OFF),
        Origin::East => (WIDTH / 2 + TURN_CENTER_OFF, HEIGHT / 2 + TURN_CENTER_OFF),
        Origin::West => (WIDTH / 2 - TURN_CENTER_OFF, HEIGHT / 2 - TURN_CENTER_OFF),
    }
}

/// The arc angle sampled for the `i`-th generated left-turn point.
pub open spec fn left_arc_angle(origin: Origin, i: int) -> int {
    match origin {
        Origin::North => i * ARC_STEP - 9000,
        Origin::South => i * ARC_STEP + 9000,
        Origin::East => i * ARC_STEP + 9000,
        Origin::West => i * ARC_STEP + 9000,
    }
}

/// The `i`-th generated point of a left-turn arc, before reversal.
pub open spec fn left_arc_point_spec(origin: Origin, i: int) -> (int, int) {
    let c = left_turn_center(origin);
    let a = left_arc_angle(origin, i);
    let co = scale_trig_spec(cos_cd_spec(a), LEFT_TURN_RADIUS as int);
    let si = scale_trig_spec(sin_cd_spec(a), LEFT_TURN_RADIUS as int);
    match origin {
        Origin::North => (c.0 - co, c.1 - si),
        Origin::South => (c.0 - co, c.1 - si),
        Origin::East => (c.0 - si, c.1 + co),
        Origin::West => (c.0 + si, c.1 - co),
    }
}

/// Center of the right-turn arc for an entry edge.
pub open spec fn right_turn_center(origin: Origin) -> (int, int) {
    match origin {
        Origin::North => (WIDTH / 2 - TURN_CENTER_OFF, HEIGHT / 2 - TURN_CENTER_OFF),
        Origin::South => (WIDTH / 2 + TURN_CENTER_OFF, HEIGHT / 2 + TURN_CENTER_OFF),
        Origin::East => (WIDTH / 2 + TURN_CENTER_OFF, HEIGHT / 2 - TURN_CENTER_OFF),
        Origin::West => (WIDTH / 2 - TURN_CENTER_OFF, HEIGHT / 2 + TURN_CENTER_OFF),
    }
}

/// The `i`-th point of a right-turn arc; right turns sweep the opposite
/// rotational sense, so the generated order is kept.
pub open spec fn right_arc_point_spec(origin: Origin, i: int) -> (int, int) {
    let c = right_turn_center(origin);
    let a = i * ARC_STEP;
    let co = scale_trig_spec(cos_cd_spec(a), RIGHT_TURN_RADIUS as int);
    let si = scale_trig_spec(sin_cd_spec(a), RIGHT_TURN_RADIUS as int);
    match origin {
        Origin::North => (c.0 + co, c.1 + si),
        Origin::South => (c.0 - co, c.1 - si),
        Origin::East => (c.0 - si, c.1 + co),
        Origin::West => (c.0 + si, c.1 - co),
    }
}

/// The exit edge of a left turn: a quarter turn clockwise of the entry.
pub open spec fn left_exit_spec(origin: Origin) -> Origin {
    match origin {
        Origin::North => Origin::West,
        Origin::South => Origin::East,
        Origin::East => Origin::North,
        Origin::West => Origin::South,
    }
}

/// The exit edge of a right turn: a quarter turn counter-clockwise of the
/// entry.
pub open spec fn right_exit_spec(origin: Origin) -> Origin {
    match origin {
        Origin::North => Origin::East,
        Origin::South => Origin::West,
        Origin::East => Origin::South,
        Origin::West => Origin::North,
    }
}

/// Shift that carries a left-turn departure run into its exit lane.
pub open spec fn left_shift_spec(origin: Origin, p: (int, int)) -> (int, int) {
    match origin {
        Origin::North => (p.0 + EXIT_SHIFT_X, p.1),
        Origin::South => (p.0 - EXIT_SHIFT_X, p.1),
        Origin::East => (p.0, p.1 + EXIT_SHIFT_Y),
        Origin::West => (p.0, p.1 - EXIT_SHIFT_Y),
    }
}

/// Shift that carries a right-turn departure run into its exit lane.
pub open spec fn right_shift_spec(origin: Origin, p: (int, int)) -> (int, int) {
    match origin {
        Origin::North => (p.0 - EXIT_SHIFT_X, p.1),
        Origin::South => (p.0 + EXIT_SHIFT_X, p.1),
        Origin::East => (p.0, p.1 - EXIT_SHIFT_Y),
        Origin::West => (p.0, p.1 + EXIT_SHIFT_Y),
    }
}

/// The `i`-th waypoint of the full path for a movement group.
pub open spec fn path_point_spec(origin: Origin, direction: Direction, i: int) -> (int, int) {
    match direction {
        Direction::Straight => straight_point_spec(origin, i),
        Direction::Left => if i < PHASE_POINTS {
            approach_point_spec(origin, Direction::Left, i)
        } else if i < 2 * PHASE_POINTS {
            left_arc_point_spec(origin, 2 * PHASE_POINTS - 1 - i)
        } else {
            left_shift_spec(
                origin,
                approach_point_spec(left_exit_spec(origin), Direction::Left, i - 2 * PHASE_POINTS),
            )
        },
        Direction::Right => if i < PHASE_POINTS {
            approach_point_spec(origin, Direction::Right, i)
        } else if i < 2 * PHASE_POINTS {
            right_arc_point_spec(origin, i - PHASE_POINTS)
        } else {
            right_shift_spec(
                origin,
                approach_point_spec(right_exit_spec(origin), Direction::Right, i - 2 * PHASE_POINTS),
            )
        },
    }
}

/// A waypoint stays within the path coordinate bound.
pub open spec fn path_pt_in_range(p: (i64, i64)) -> bool {
    -PATH_COORD_LIMIT <= p.0 <= PATH_COORD_LIMIT && -PATH_COORD_LIMIT <= p.1 <= PATH_COORD_LIMIT
}

/// The whole sequence `v` is the path of the movement group.
pub open spec fn is_path_of(v: Seq<(i64, i64)>, origin: Origin, direction: Direction) -> bool {
    &&& v.len() == NUM_PATH_POINTS
    &&& forall|i: int|
        0 <= i < NUM_PATH_POINTS ==> pti(#[trigger] v[i]) == path_point_spec(origin, direction, i)
    &&& forall|i: int| 0 <= i < NUM_PATH_POINTS ==> path_pt_in_range(#[trigger] v[i])
}

/// Synthesis is deterministic: any two paths of the same movement group
/// are equal, waypoint for waypoint.
pub proof fn lemma_path_unique(
    v1: Seq<(i64, i64)>,
    v2: Seq<(i64, i64)>,
    origin: Origin,
    direction: Direction,
)
    requires
        is_path_of(v1, origin, direction),
        is_path_of(v2, origin, direction),
    ensures
        v1 == v2,
{
    assert forall|i: int| 0 <= i < NUM_PATH_POINTS implies v1[i] == v2[i] by {
        assert(pti(v1[i]) == path_point_spec(origin, direction, i));
        assert(pti(v2[i]) == path_point_spec(origin, direction, i));
    }
    assert(v1 =~= v2);
}

/// The progress of a point along an origin's direction of travel:
/// larger is farther from the spawn edge.
pub open spec fn along_axis(origin: Origin, p: (int, int)) -> int {
    match origin {
        Origin::North => p.1,
        Origin::South => -p.1,
        Origin::East => -p.0,
        Origin::West => p.0,
    }
}

/// Paths progress monotonically from the spawn edge toward and through
/// the intersection: across the approach phase — across the whole path,
/// for a straight crossing — each later waypoint is strictly farther
/// along the direction of travel.
pub proof fn lemma_path_progresses(origin: Origin, direction: Direction, i: int, j: int)
    requires
        0 <= i < j,
        direction == Direction::Straight ==> j < NUM_PATH_POINTS,
        direction != Direction::Straight ==> j < PHASE_POINTS,
    ensures
        along_axis(origin, path_point_spec(origin, direction, i)) < along_axis(
            origin,
            path_point_spec(origin, direction, j),
        ),
{
}

/// The departure run of a turn also progresses monotonically, along the
/// exit edge's direction of travel.
pub proof fn lemma_departure_progresses(origin: Origin, direction: Direction, i: int, j: int)
    requires
        direction != Direction::Straight,
        2 * PHASE_POINTS <= i < j < NUM_PATH_POINTS,
    ensures
        ({
            let exit = if direction == Direction::Left {
                left_exit_spec(origin)
            } else {
                right_exit_spec(origin)
            };
            along_axis(exit, path_point_spec(origin, direction, i)) < along_axis(
                exit,
                path_point_spec(origin, direction, j),
            )
        }),
{
}

/// Generates one approach run: the straight third every path starts with.
pub fn generate_straight_path_third(origin: Origin, direction: Direction) -> (p: Vec<(i64, i64)>)
    ensures
        p@.len() == PHASE_POINTS,
        forall|i: int|
            0 <= i < PHASE_POINTS ==> pti(#[trigger] p@[i]) == approach_point_spec(
                origin,
                direction,
                i,
            ),
        forall|i: int| 0 <= i < PHASE_POINTS ==> path_pt_in_range(#[trigger] p@[i]),
{
    let pos = get_position(origin, direction);
    let mut p: Vec<(i64, i64)> = Vec::new();
    let mut i: usize = 0;
    while i < PHASE_POINTS
        invariant
            0 <= i <= PHASE_POINTS,
            p@.len() == i,
            pti(pos) == position_spec(origin, direction),
            forall|j: int|
                0 <= j < i ==> pti(#[trigger] p@[j]) == approach_point_spec(origin, direction, j),
            forall|j: int| 0 <= j < i ==> path_pt_in_range(#[trigger] p@[j]),
        decreases PHASE_POINTS - i,
    {
        let k = i as i64;
        let q: (i64, i64) = match origin {
            Origin::North => (pos.0, pos.1 + k * APPROACH_GAP_V),
            Origin::South => (pos.0, pos.1 - k * APPROACH_GAP_V),
            Origin::East => (pos.0 - k * APPROACH_GAP_H, pos.1),
            Origin::West => (pos.0 + k * APPROACH_GAP_H, pos.1),
        };
        p.push(q);
        i = i + 1;
    }
    p
}

/// Generates the full path of a straight crossing.
pub fn generate_straight_path(origin: Origin) -> (p: Vec<(i64, i64)>)
    ensures
        is_path_of(p@, origin, Direction::Straight),
{
    let pos = get_position(origin, Direction::Straight);
    let mut p: Vec<(i64, i64)> = Vec::new();
    let mut i: usize = 0;
    while i < NUM_PATH_POINTS
        invariant
            0 <= i <= NUM_PATH_POINTS,
            p@.len() == i,
            pti(pos) == position_spec(origin, Direction::Straight),
            forall|j: int|
                0 <= j < i ==> pti(#[trigger] p@[j]) == straight_point_spec(origin, j),
            forall|j: int| 0 <= j < i ==> path_pt_in_range(#[trigger] p@[j]),
        decreases NUM_PATH_POINTS - i,
    {
        let k = i as i64;
        let q: (i64, i64) = match origin {
            Origin::North => (pos.0, pos.1 + k * STRAIGHT_GAP_V),
            Origin::South => (pos.0, pos.1 - k * STRAIGHT_GAP_V),
            Origin::East => (pos.0 - k * STRAIGHT_GAP_H, pos.1),
            Origin::West => (pos.0 + k * STRAIGHT_GAP_H, pos.1),
        };
        p.push(q);
        i = i + 1;
    }
    p
}

/// Computes the exit edge of a left turn.
fn left_exit(origin: Origin) -> (r: Origin)
    ensures
        r == left_exit_spec(origin),
{
    match origin {
        Origin::North => Origin::West,
        Origin::South => Origin::East,
        Origin::East => Origin::North,
        Origin::West => Origin::South,
    }
}

/// Computes the exit edge of a right turn.
fn right_exit(origin: Origin) -> (r: Origin)
    ensures
        r == right_exit_spec(origin),
{
    match origin {
        Origin::North => Origin::East,
        Origin::South => Origin::West,
        Origin::East => Origin::South,
        Origin::West => Origin::North,
    }
}

/// Generates the full path of a left turn: approach, a quarter-circle arc
/// traversed interior to exterior, and the shifted departure run.
pub fn generate_left_turn_path(origin: Origin) -> (p: Vec<(i64, i64)>)
    ensures
        is_path_of(p@, origin, Direction::Left),
{
    let mut p = generate_straight_path_third(origin, Direction::Left);
    let center: (i64, i64) = match origin {
        Origin::North => (WIDTH / 2 + TURN_CENTER_OFF, HEIGHT / 2 - TURN_CENTER_OFF),
        Origin::South => (WIDTH / 2 - TURN_CENTER_OFF, HEIGHT / 2 + TURN_CENTER_OFF),
        Origin::East => (WIDTH / 2 + TURN_CENTER_OFF, HEIGHT / 2 + TURN_CENTER_OFF),
        Origin::West => (WIDTH / 2 - TURN_CENTER_OFF, HEIGHT / 2 - TURN_CENTER_OFF),
    };
    proof {
        assert(pti(center) == left_turn_center(origin));
    }
    // The arc points are emitted in reverse of their generated order, so a
    // left turn is traversed from the interior of the curve outward.
    let mut k: usize = PHASE_POINTS;
    while k < 2 * PHASE_POINTS
        invariant
            PHASE_POINTS <= k <= 2 * PHASE_POINTS,
            p@.len() == k,
            pti(center) == left_turn_center(origin),
            forall|j: int|
                0 <= j < k ==> pti(#[trigger] p@[j]) == path_point_spec(origin, Direction::Left, j),
            forall|j: int| 0 <= j < k ==> path_pt_in_range(#[trigger] p@[j]),
        decreases 2 * PHASE_POINTS - k,
    {
        let gen: i64 = (2 * PHASE_POINTS - 1 - k) as i64;
        let a: i64 = match origin {
            Origin::North => gen * ARC_STEP - 9000,
            Origin::South => gen * ARC_STEP + 9000,
            Origin::East => gen * ARC_STEP + 9000,
            Origin::West => gen * ARC_STEP + 9000,
        };
        let co = scale_trig(cos_cd(a), LEFT_TURN_RADIUS);
        let si = scale_trig(sin_cd(a), LEFT_TURN_RADIUS);
        let q: (i64, i64) = match origin {
            Origin::North => (center.0 - co, center.1 - si),
            Origin::South => (center.0 - co, center.1 - si),
            Origin::East => (center.0 - si, center.1 + co),
            Origin::West => (center.0 + si, center.1 - co),
        };
        proof {
            assert(pti(q) == left_arc_point_spec(origin, gen as int));
        }
        p.push(q);
        k = k + 1;
    }
    // Departure run: an approach for the exit edge, shifted into the exit
    // lane so it continues from the arc's endpoint.
    let tail = generate_straight_path_third(left_exit(origin), Direction::Left);
    let mut t: usize = 0;
    while t < PHASE_POINTS
        invariant
            0 <= t <= PHASE_POINTS,
            p@.len() == 2 * PHASE_POINTS + t,
            tail@.len() == PHASE_POINTS,
            forall|j: int|
                0 <= j < PHASE_POINTS ==> pti(#[trigger] tail@[j]) == approach_point_spec(
                    left_exit_spec(origin),
                    Direction::Left,
                    j,
                ),
            forall|j: int| 0 <= j < PHASE_POINTS ==> path_pt_in_range(#[trigger] tail@[j]),
            forall|j: int|
                0 <= j < 2 * PHASE_POINTS + t ==> pti(#[trigger] p@[j]) == path_point_spec(
                    origin,
                    Direction::Left,
                    j,
                ),
            forall|j: int| 0 <= j < 2 * PHASE_POINTS + t ==> path_pt_in_range(#[trigger] p@[j]),
        decreases PHASE_POINTS - t,
    {
        let b = tail[t];
        let q: (i64, i64) = match origin {
            Origin::North => (b.0 + EXIT_SHIFT_X, b.1),
            Origin::South => (b.0 - EXIT_SHIFT_X, b.1),
            Origin::East => (b.0, b.1 + EXIT_SHIFT_Y),
            Origin::West => (b.0, b.1 - EXIT_SHIFT_Y),
        };
        p.push(q);
        t = t + 1;
    }
    p
}

/// Generates the full path of a right turn: approach, a tight
/// quarter-circle arc in generated order, and the shifted departure run.
pub fn generate_right_turn_path(origin: Origin) -> (p: Vec<(i64, i64)>)
    ensures
        is_path_of(p@, origin, Direction::Right),
{
    let mut p = generate_straight_path_third(origin, Direction::Right);
    let center: (i64, i64) = match origin {
        Origin::North => (WIDTH / 2 - TURN_CENTER_OFF, HEIGHT / 2 - TURN_CENTER_OFF),
        Origin::South => (WIDTH / 2 + TURN_CENTER_OFF, HEIGHT / 2 + TURN_CENTER_OFF),
        Origin::East => (WIDTH / 2 + TURN_CENTER_OFF, HEIGHT / 2 - TURN_CENTER_OFF),
        Origin::West => (WIDTH / 2 - TURN_CENTER_OFF, HEIGHT / 2 + TURN_CENTER_OFF),
    };
    proof {
        assert(pti(center) == right_turn_center(origin));
    }
    let mut k: usize = PHASE_POINTS;
    while k < 2 * PHASE_POINTS
        invariant
            PHASE_POINTS <= k <= 2 * PHASE_POINTS,
            p@.len() == k,
            pti(center) == right_turn_center(origin),
            forall|j: int|
                0 <= j < k ==> pti(#[trigger] p@[j]) == path_point_spec(origin, Direction::Right, j),
            forall|j: int| 0 <= j < k ==> path_pt_in_range(#[trigger] p@[j]),
        decreases 2 * PHASE_POINTS - k,
    {
        let gen: i64 = (k - PHASE_POINTS) as i64;
        let a: i64 = gen * ARC_STEP;
        let co = scale_trig(cos_cd(a), RIGHT_TURN_RADIUS);
        let si = scale_trig(sin_cd(a), RIGHT_TURN_RADIUS);
        let q: (i64, i64) = match origin {
            Origin::North => (center.0 + co, center.1 + si),
            Origin::South => (center.0 - co, center.1 - si),
            Origin::East => (center.0 - si, center.1 + co),
            Origin::West => (center.0 + si, center.1 - co),
        };
        proof {
            assert(pti(q) == right_arc_point_spec(origin, gen as int));
        }
        p.push(q);
        k = k + 1;
    }
    let tail = generate_straight_path_third(right_exit(origin), Direction::Right);
    let mut t: usize = 0;
    while t < PHASE_POINTS
        invariant
            0 <= t <= PHASE_POINTS,
            p@.len() == 2 * PHASE_POINTS + t,
            tail@.len() == PHASE_POINTS,
            forall|j: int|
                0 <= j < PHASE_POINTS ==> pti(#[trigger] tail@[j]) == approach_point_spec(
                    right_exit_spec(origin),
                    Direction::Right,
                    j,
                ),
            forall|j: int| 0 <= j < PHASE_POINTS ==> path_pt_in_range(#[trigger] tail@[j]),
            forall|j: int|
                0 <= j < 2 * PHASE_POINTS + t ==> pti(#[trigger] p@[j]) == path_point_spec(
                    origin,
                    Direction::Right,
                    j,
                ),
            forall|j: int| 0 <= j < 2 * PHASE_POINTS + t ==> path_pt_in_range(#[trigger] p@[j]),
        decreases PHASE_POINTS - t,
    {
        let b = tail[t];
        let q: (i64, i64) = match origin {
            Origin::North => (b.0 - EXIT_SHIFT_X, b.1),
            Origin::South => (b.0 + EXIT_SHIFT_X, b.1),
            Origin::East => (b.0, b.1 - EXIT_SHIFT_Y),
            Origin::West => (b.0, b.1 + EXIT_SHIFT_Y),
        };
        p.push(q);
        t = t + 1;
    }
    p
}

} // verus!