//! The vehicle: kinematic state, path following, and the per-tick state
//! machine that combines the traffic light, car following, speed, motion
//! and heading smoothing.

use vstd::prelude::*;

use crate::angle::{
    atan2_cd, atan2_cd_spec, cos_cd, cos_cd_spec, rotate_toward, rotate_toward_spec, scale_trig,
    scale_trig_spec, sin_cd, sin_cd_spec, unscale_trig, unscale_trig_spec, HEADING_LIMIT,
    TARGET_LIMIT,
};
use crate::controller::{
    is_green_spec, is_yellow_spec, SimplifiedCar, TrafficLightController,
};
use crate::geom::{corners_in_range, pt_in_range, pti, quads_intersect, quads_overlap};
use crate::movement::{group_index_spec, Direction, Origin};
use crate::params::{
    ACCELERATION, DECELERATION, DISTANCE_THRESHOLD, FAR_GAP_SQ, FOLLOW_GAP, MAX_SPEED, MIN_GAP,
    NUM_PATH_POINTS, POS_LIMIT,
};
use crate::path::{
    generate_left_turn_path, generate_right_turn_path, generate_straight_path, get_position,
    is_path_of, path_pt_in_range, position_spec,
};

verus! {

/// Coordinate window outside which a separation is simply "far": its
/// square is `FAR_GAP_SQ`.
pub const GAP_WINDOW: i64 = 20000;

/// A position within the numeric range of the simulation plane.
pub open spec fn pos_in_range(p: (i64, i64)) -> bool {
    -POS_LIMIT <= p.0 <= POS_LIMIT && -POS_LIMIT <= p.1 <= POS_LIMIT
}

/// The heading a vehicle spawns with: pointing from its origin edge into
/// the area, in centidegrees.
pub open spec fn spawn_heading_spec(origin: Origin) -> int {
    match origin {
        Origin::North => 9000,
        Origin::South => 27000,
        Origin::East => 18000,
        Origin::West => 0,
    }
}

/// The waypoint index at which a vehicle must hold without right of way:
/// one phase in, one further for straight crossings.
pub open spec fn waiting_index_spec(direction: Direction) -> int {
    NUM_PATH_POINTS as int / 3 + if direction == Direction::Straight {
        1int
    } else {
        0int
    }
}

/// A vehicle in the simulation.
pub struct Car {
    /// Unique identity.
    pub id: usize,
    /// Edge the vehicle entered from; fixed.
    pub origin: Origin,
    /// Maneuver the vehicle performs; fixed.
    pub direction: Direction,
    /// Current position, in centipixels.
    pub position: (i64, i64),
    /// Current heading, in centidegrees.
    pub rotation: i64,
    /// Heading the vehicle is smoothly turning toward.
    pub target_rotation: i64,
    /// Current speed, in centipixels per tick.
    pub speed: i64,
    /// Whether the vehicle is currently stopped.
    pub stopped: bool,
    /// Whether the current stop is a car-following stop rather than a
    /// light stop.
    pub automatically_stopped: bool,
    /// The precomputed waypoint path; immutable after creation.
    pub path: Vec<(i64, i64)>,
    /// Progress cursor into the path.
    pub path_index: usize,
    /// Bookkeeping for the cursor position at the last switch to red;
    /// cleared whenever the vehicle is permitted to go.
    pub path_index_on_red_change: Option<usize>,
    /// The waypoint index of the commitment point.
    pub path_index_at_intersection: usize,
    /// Set once the cursor has wrapped past the end of the path.
    pub finished: bool,
    /// Set once the vehicle has passed the commitment point; it is then
    /// no longer subject to light stops.
    pub through_intersection: bool,
}

impl Car {
    /// Well-formedness: the path belongs to the movement group, the
    /// cursor and commitment index are in range, and the numeric state
    /// is bounded.
    pub open spec fn wf(self) -> bool {
        &&& is_path_of(self.path@, self.origin, self.direction)
        &&& self.path_index < NUM_PATH_POINTS
        &&& self.path_index_at_intersection == waiting_index_spec(self.direction)
        &&& 0 <= self.speed <= MAX_SPEED
        &&& pos_in_range(self.position)
        &&& -HEADING_LIMIT <= self.rotation <= HEADING_LIMIT
        &&& -TARGET_LIMIT <= self.target_rotation <= TARGET_LIMIT
    }

    /// Creates a vehicle of a movement group: at its spawn position,
    /// heading into the intersection, at rest, with its path synthesized
    /// once from origin and maneuver.
    pub fn new(id: usize, origin: Origin, direction: Direction) -> (c: Car)
        ensures
            c.wf(),
            c.id == id,
            c.origin == origin,
            c.direction == direction,
            pti(c.position) == position_spec(origin, direction),
            c.rotation == spawn_heading_spec(origin),
            c.target_rotation == c.rotation,
            c.speed == 0,
            !c.stopped,
            !c.automatically_stopped,
            is_path_of(c.path@, origin, direction),
            c.path_index == 1,
            c.path_index_on_red_change.is_none(),
            c.path_index_at_intersection == waiting_index_spec(direction),
            !c.finished,
            !c.through_intersection,
    {
        let rotation: i64 = match origin {
            Origin::North => 9000,
            Origin::South => 27000,
            Origin::East => 18000,
            Origin::West => 0,
        };
        let path: Vec<(i64, i64)> = match direction {
            Direction::Left => generate_left_turn_path(origin),
            Direction::Right => generate_right_turn_path(origin),
            Direction::Straight => generate_straight_path(origin),
        };
        let position = get_position(origin, direction);
        let waiting = NUM_PATH_POINTS / 3 + if direction == Direction::Straight {
            1
        } else {
            0
        };
        Car {
            id,
            origin,
            direction,
            position,
            rotation,
            target_rotation: rotation,
            speed: 0,
            stopped: false,
            automatically_stopped: false,
            path,
            path_index: 1,
            path_index_on_red_change: None,
            path_index_at_intersection: waiting,
            finished: false,
            through_intersection: false,
        }
    }

    /// Whether the cursor is past the commitment point.
    pub open spec fn past_intersection_spec(self) -> bool {
        self.path_index > self.path_index_at_intersection
    }

    /// Whether the vehicle's cursor has advanced past the commitment
    /// point.
    pub fn past_intersection(&self) -> (r: bool)
        ensures
            r == self.past_intersection_spec(),
    {
        self.path_index > self.path_index_at_intersection
    }

    /// The commitment-point index of a movement group.
    pub fn calculate_waiting_point_index(car: &SimplifiedCar) -> (r: usize)
        ensures
            r == waiting_index_spec(car.direction),
    {
        NUM_PATH_POINTS / 3 + if car.direction == Direction::Straight {
            1
        } else {
            0
        }
    }

    /// The path of a movement group: synthesis is pure, so this returns
    /// the same path a vehicle of the group was created with.
    pub fn calculate_path(car: &SimplifiedCar) -> (p: Vec<(i64, i64)>)
        ensures
            is_path_of(p@, car.origin, car.direction),
    {
        match car.direction {
            Direction::Left => generate_left_turn_path(car.origin),
            Direction::Right => generate_right_turn_path(car.origin),
            Direction::Straight => generate_straight_path(car.origin),
        }
    }
}

impl Clone for Car {
    /// A field-for-field copy of the vehicle.
    fn clone(&self) -> (r: Self)
        ensures
            r.id == self.id,
            r.origin == self.origin,
            r.direction == self.direction,
            r.position == self.position,
            r.rotation == self.rotation,
            r.target_rotation == self.target_rotation,
            r.speed == self.speed,
            r.stopped == self.stopped,
            r.automatically_stopped == self.automatically_stopped,
            r.path@ == self.path@,
            r.path_index == self.path_index,
            r.path_index_on_red_change == self.path_index_on_red_change,
            r.path_index_at_intersection == self.path_index_at_intersection,
            r.finished == self.finished,
            r.through_intersection == self.through_intersection,
    {
        let mut path: Vec<(i64, i64)> = Vec::new();
        let mut i: usize = 0;
        while i < self.path.len()
            invariant
                0 <= i <= self.path@.len(),
                path@.len() == i,
                forall|j: int| 0 <= j < i ==> path@[j] == self.path@[j],
            decreases self.path@.len() - i,
        {
            path.push(self.path[i]);
            i = i + 1;
        }
        proof {
            assert(path@ =~= self.path@);
        }
        Car {
            id: self.id,
            origin: self.origin,
            direction: self.direction,
            position: self.position,
            rotation: self.rotation,
            target_rotation: self.target_rotation,
            speed: self.speed,
            stopped: self.stopped,
            automatically_stopped: self.automatically_stopped,
            path,
            path_index: self.path_index,
            path_index_on_red_change: self.path_index_on_red_change,
            path_index_at_intersection: self.path_index_at_intersection,
            finished: self.finished,
            through_intersection: self.through_intersection,
        }
    }
}

/// Whether `c` is a distinct vehicle of the same movement group at or
/// ahead of `me` along the direction of travel.
pub open spec fn is_peer_ahead(me: Car, c: Car) -> bool {
    &&& c.origin == me.origin
    &&& c.direction == me.direction
    &&& c.id != me.id
    &&& match me.origin {
        Origin::North => c.position.1 >= me.position.1,
        Origin::South => c.position.1 <= me.position.1,
        Origin::East => c.position.0 <= me.position.0,
        Origin::West => c.position.0 >= me.position.0,
    }
}

/// The squared separation of two positions, capped at `FAR_GAP_SQ`.
pub open spec fn capped_gap_sq(a: (i64, i64), b: (i64, i64)) -> int {
    let dx = a.0 - b.0;
    let dy = a.1 - b.1;
    if dx * dx + dy * dy < FAR_GAP_SQ {
        dx * dx + dy * dy
    } else {
        FAR_GAP_SQ as int
    }
}

/// The least capped squared separation from `me` to a peer ahead among
/// the first `n` vehicles of `cars`.
pub open spec fn closest_gap_sq_prefix(cars: Seq<Car>, me: Car, n: int) -> int
    decreases n,
{
    if n <= 0 {
        FAR_GAP_SQ as int
    } else {
        let rest = closest_gap_sq_prefix(cars, me, n - 1);
        if is_peer_ahead(me, cars[n - 1]) && capped_gap_sq(me.position, cars[n - 1].position)
            < rest {
            capped_gap_sq(me.position, cars[n - 1].position)
        } else {
            rest
        }
    }
}

/// The least capped squared separation from `me` to any peer ahead.
pub open spec fn closest_gap_sq(cars: Seq<Car>, me: Car) -> int {
    closest_gap_sq_prefix(cars, me, cars.len() as int)
}

/// Computes the squared separation of two positions, capped at
/// `FAR_GAP_SQ`.
fn capped_gap_sq_exec(a: (i64, i64), b: (i64, i64)) -> (r: i64)
    requires
        pos_in_range(a),
        pos_in_range(b),
    ensures
        r == capped_gap_sq(a, b),
        0 <= r <= FAR_GAP_SQ,
{
    let dx = a.0 - b.0;
    let dy = a.1 - b.1;
    if dx >= GAP_WINDOW || dx <= -GAP_WINDOW || dy >= GAP_WINDOW || dy <= -GAP_WINDOW {
        proof {
            if dx >= GAP_WINDOW || dx <= -GAP_WINDOW {
                assert((dx as int) * (dx as int) >= 400000000) by (nonlinear_arith)
                    requires
                        dx >= 20000 || dx <= -20000,
                ;
                assert((dy as int) * (dy as int) >= 0) by (nonlinear_arith);
            } else {
                assert((dy as int) * (dy as int) >= 400000000) by (nonlinear_arith)
                    requires
                        dy >= 20000 || dy <= -20000,
                ;
                assert((dx as int) * (dx as int) >= 0) by (nonlinear_arith);
            }
        }
        FAR_GAP_SQ
    } else {
        proof {
            assert(0 <= (dx as int) * (dx as int) < 400000000 && 0 <= (dy as int) * (dy as int)
                < 400000000) by (nonlinear_arith)
                requires
                    -20000 < dx < 20000,
                    -20000 < dy < 20000,
            ;
        }
        let s = dx * dx + dy * dy;
        if s < FAR_GAP_SQ {
            s
        } else {
            FAR_GAP_SQ
        }
    }
}

/// The vehicle after the car-following decision: a free-rolling vehicle
/// within the following gap of a peer ahead (but beyond the coincident
/// epsilon) stops; a car-following stop releases once the gap opens
/// beyond the threshold.  Vehicles through the intersection are exempt.
pub open spec fn auto_stop_spec(me: Car, cars: Seq<Car>) -> Car {
    if me.through_intersection {
        me
    } else {
        let gap = closest_gap_sq(cars, me);
        if !me.stopped && gap < (FOLLOW_GAP as int) * (FOLLOW_GAP as int) && gap > (
        MIN_GAP as int) * (MIN_GAP as int) {
            Car { stopped: true, automatically_stopped: true, ..me }
        } else if me.stopped && me.automatically_stopped && gap > (FOLLOW_GAP as int) * (
        FOLLOW_GAP as int) {
            Car { stopped: false, automatically_stopped: false, ..me }
        } else {
            me
        }
    }
}

/// The vehicle after the light-stop decision: a vehicle through the
/// intersection never stops for the light; otherwise it stops exactly
/// when its group lacks green while its cursor holds at the commitment
/// point.  Permission clears the red-change bookkeeping.
pub open spec fn light_stop_spec(me: Car, t: TrafficLightController) -> Car {
    if me.through_intersection {
        Car { stopped: false, ..me }
    } else {
        let can_go = is_green_spec(t, me.origin, me.direction) || me.path_index
            != me.path_index_at_intersection;
        Car {
            stopped: !can_go,
            path_index_on_red_change: if can_go {
                None
            } else {
                me.path_index_on_red_change
            },
            ..me
        }
    }
}

impl Car {
    /// The capped squared separation to the closest same-group vehicle
    /// ahead; `FAR_GAP_SQ` when none is nearer than the window.
    pub fn gap_sq_to_closest_car(&self, cars: &Vec<Car>) -> (r: i64)
        requires
            pos_in_range(self.position),
            forall|k: int| 0 <= k < cars@.len() ==> pos_in_range((#[trigger] cars@[k]).position),
        ensures
            r == closest_gap_sq(cars@, *self),
            0 <= r <= FAR_GAP_SQ,
    {
        let mut closest: i64 = FAR_GAP_SQ;
        let mut i: usize = 0;
        while i < cars.len()
            invariant
                0 <= i <= cars@.len(),
                pos_in_range(self.position),
                forall|k: int|
                    0 <= k < cars@.len() ==> pos_in_range((#[trigger] cars@[k]).position),
                closest == closest_gap_sq_prefix(cars@, *self, i as int),
                0 <= closest <= FAR_GAP_SQ,
            decreases cars@.len() - i,
        {
            let c = &cars[i];
            let ahead = c.origin == self.origin && c.direction == self.direction && c.id != self.id
                && (match self.origin {
                Origin::North => c.position.1 >= self.position.1,
                Origin::South => c.position.1 <= self.position.1,
                Origin::East => c.position.0 <= self.position.0,
                Origin::West => c.position.0 >= self.position.0,
            });
            if ahead {
                let g = capped_gap_sq_exec(self.position, c.position);
                if g < closest {
                    closest = g;
                }
            }
            i = i + 1;
        }
        closest
    }

    /// Applies the car-following decision for this tick.
    pub fn automatically_stop(&mut self, cars: &Vec<Car>)
        requires
            pos_in_range(old(self).position),
            forall|k: int| 0 <= k < cars@.len() ==> pos_in_range((#[trigger] cars@[k]).position),
        ensures
            *final(self) == auto_stop_spec(*old(self), cars@),
    {
        if self.through_intersection {
            return ;
        }
        let closest = self.gap_sq_to_closest_car(cars);
        if !self.stopped && closest < FOLLOW_GAP * FOLLOW_GAP && closest > MIN_GAP * MIN_GAP {
            self.stopped = true;
            self.automatically_stopped = true;
        } else if self.stopped && self.automatically_stopped && closest > FOLLOW_GAP * FOLLOW_GAP {
            self.stopped = false;
            self.automatically_stopped = false;
        }
    }

    /// Applies the light-stop decision for this tick.  A green query
    /// registers the vehicle's group with the scheduler.
    pub fn stop_for_traffic_light(&mut self, traffic_light: &mut TrafficLightController)
        requires
            old(traffic_light).wf(),
        ensures
            final(traffic_light).wf(),
            *final(self) == light_stop_spec(*old(self), *old(traffic_light)),
            final(traffic_light).phase == old(traffic_light).phase,
            final(traffic_light).yellow == old(traffic_light).yellow,
            final(traffic_light).ticks_left == old(traffic_light).ticks_left,
            final(traffic_light).extended == old(traffic_light).extended,
            final(traffic_light).reserved@ == (if !old(self).through_intersection && is_green_spec(
                *old(traffic_light),
                old(self).origin,
                old(self).direction,
            ) {
                old(traffic_light).reserved@.update(
                    group_index_spec(old(self).origin, old(self).direction),
                    true,
                )
            } else {
                old(traffic_light).reserved@
            }),
    {
        if self.through_intersection {
            self.stopped = false;
            return ;
        }
        let mut can_go = traffic_light.is_green(self.origin, self.direction);
        // A vehicle whose cursor is away from the commitment point keeps
        // going on red: it is either not yet at the stop line or already
        // committed past it.
        if !can_go && self.path_index != self.path_index_at_intersection {
            can_go = true;
        }
        if can_go {
            self.path_index_on_red_change = None;
        }
        self.stopped = !can_go;
    }
}

/// The speed after one tick: gain one increment while rolling, up to the
/// cap; lose one decrement while stopped, down to zero, never negative.
pub open spec fn speed_after_spec(stopped: bool, speed: int) -> int {
    if !stopped {
        if speed + ACCELERATION > MAX_SPEED {
            MAX_SPEED as int
        } else {
            speed + ACCELERATION
        }
    } else {
        if speed > 0 {
            if speed - DECELERATION < 0 {
                0
            } else {
                speed - DECELERATION
            }
        } else {
            0
        }
    }
}

/// A coordinate clamped into the numeric range of the plane.
pub open spec fn clamp_coord_spec(x: int) -> int {
    if x > POS_LIMIT {
        POS_LIMIT as int
    } else if x < -POS_LIMIT {
        -POS_LIMIT as int
    } else {
        x
    }
}

/// The position after advancing along the heading `rot` at `speed`.
pub open spec fn position_after_spec(pos: (int, int), rot: int, speed: int) -> (int, int) {
    let dx = scale_trig_spec(cos_cd_spec(rot), speed);
    let dy = scale_trig_spec(sin_cd_spec(rot), speed);
    (clamp_coord_spec(pos.0 + dx), clamp_coord_spec(pos.1 + dy))
}

/// Whether `pos` is within the waypoint-reach threshold of `p`.
pub open spec fn near_point_spec(pos: (int, int), p: (int, int)) -> bool {
    let dx = pos.0 - p.0;
    let dy = pos.1 - p.1;
    dx * dx + dy * dy < DISTANCE_THRESHOLD * DISTANCE_THRESHOLD
}

/// The path cursor after the waypoint-advance step, for a vehicle at
/// `pos`: one step forward when the current target waypoint is reached,
/// wrapping to zero at the end of the path.
pub open spec fn waypoint_index_after(me: Car, pos: (int, int)) -> int {
    if near_point_spec(pos, pti(me.path@[me.path_index as int])) {
        if me.path_index + 1 >= NUM_PATH_POINTS {
            0
        } else {
            me.path_index + 1
        }
    } else {
        me.path_index as int
    }
}

/// The finished flag after the waypoint-advance step: set when the
/// cursor wraps past the end of the path.
pub open spec fn finished_after(me: Car, pos: (int, int)) -> bool {
    if near_point_spec(pos, pti(me.path@[me.path_index as int])) && me.path_index + 1
        >= NUM_PATH_POINTS {
        true
    } else {
        me.finished
    }
}

/// The target heading after the waypoint-advance step: on advancing to a
/// nonzero cursor, the angle from the vehicle to the new target
/// waypoint.
pub open spec fn target_after(me: Car, pos: (int, int)) -> int {
    if near_point_spec(pos, pti(me.path@[me.path_index as int])) && me.path_index + 1
        < NUM_PATH_POINTS {
        let wp = pti(me.path@[me.path_index + 1]);
        atan2_cd_spec(wp.1 - pos.1, wp.0 - pos.0)
    } else {
        me.target_rotation as int
    }
}

/// The vehicle state after one tick against the peer snapshot `cars` and
/// the controller state `t`: intersection bookkeeping, the light-stop
/// and car-following decisions, the speed update, position integration,
/// waypoint advance, and heading smoothing, in that order.
pub open spec fn update_car_spec(me: Car, cars: Seq<Car>, t: TrafficLightController) -> Car {
    let through1 = me.through_intersection || me.past_intersection_spec();
    let fired_yellow = is_yellow_spec(t, me.origin, me.direction) && me.path_index
        == me.path_index_at_intersection && !through1;
    let c1 = Car { through_intersection: through1 || fired_yellow, ..me };
    let c2 = light_stop_spec(c1, t);
    let c3 = auto_stop_spec(c2, cars);
    let speed = speed_after_spec(c3.stopped, me.speed as int);
    let pos = position_after_spec(pti(me.position), me.rotation as int, speed);
    let pi = waypoint_index_after(c3, pos);
    let fin = finished_after(c3, pos);
    let target = target_after(c3, pos);
    let rot = rotate_toward_spec(me.rotation as int, target);
    Car {
        position: (pos.0 as i64, pos.1 as i64),
        speed: speed as i64,
        path_index: pi as usize,
        finished: fin,
        target_rotation: target as i64,
        rotation: rot as i64,
        ..c3
    }
}

/// The controller's reservation state after one vehicle tick: release on
/// passing the commitment point, the yellow query's registration, the
/// yellow early release, then the green query's registration.
pub open spec fn reserved_after_update(me: Car, t: TrafficLightController) -> Seq<bool> {
    let g = group_index_spec(me.origin, me.direction);
    let through1 = me.through_intersection || me.past_intersection_spec();
    let fired_past = !me.through_intersection && me.past_intersection_spec();
    let r1 = if fired_past {
        t.reserved@.update(g, false)
    } else {
        t.reserved@
    };
    let yg = is_yellow_spec(t, me.origin, me.direction);
    let r2 = if yg {
        r1.update(g, true)
    } else {
        r1
    };
    let fired_yellow = yg && me.path_index == me.path_index_at_intersection && !through1;
    let r3 = if fired_yellow {
        r2.update(g, false)
    } else {
        r2
    };
    let through2 = through1 || fired_yellow;
    let r4 = if !through2 && is_green_spec(t, me.origin, me.direction) {
        r3.update(g, true)
    } else {
        r3
    };
    r4
}

/// Clamps a coordinate into the numeric range of the plane.
fn clamp_coord(x: i64) -> (r: i64)
    ensures
        r == clamp_coord_spec(x as int),
{
    if x > POS_LIMIT {
        POS_LIMIT
    } else if x < -POS_LIMIT {
        -POS_LIMIT
    } else {
        x
    }
}

impl Car {
    /// Whether the vehicle is within the reach threshold of `point`.
    fn intersects_point(&self, point: (i64, i64)) -> (r: bool)
        requires
            pos_in_range(self.position),
            path_pt_in_range(point),
        ensures
            r == near_point_spec(pti(self.position), pti(point)),
    {
        let dx = self.position.0 - point.0;
        let dy = self.position.1 - point.1;
        if dx >= DISTANCE_THRESHOLD || dx <= -DISTANCE_THRESHOLD || dy >= DISTANCE_THRESHOLD || dy
            <= -DISTANCE_THRESHOLD {
            proof {
                if dx >= DISTANCE_THRESHOLD || dx <= -DISTANCE_THRESHOLD {
                    assert((dx as int) * (dx as int) >= 250000) by (nonlinear_arith)
                        requires
                            dx >= 500 || dx <= -500,
                    ;
                    assert((dy as int) * (dy as int) >= 0) by (nonlinear_arith);
                } else {
                    assert((dy as int) * (dy as int) >= 250000) by (nonlinear_arith)
                        requires
                            dy >= 500 || dy <= -500,
                    ;
                    assert((dx as int) * (dx as int) >= 0) by (nonlinear_arith);
                }
            }
            false
        } else {
            proof {
                assert(0 <= (dx as int) * (dx as int) < 250000 && 0 <= (dy as int) * (dy as int)
                    < 250000) by (nonlinear_arith)
                    requires
                        -500 < dx < 500,
                        -500 < dy < 500,
                ;
            }
            dx * dx + dy * dy < DISTANCE_THRESHOLD * DISTANCE_THRESHOLD
        }
    }

    /// Advances the vehicle one tick: intersection bookkeeping and the
    /// scheduler hand-off, the light-stop and car-following decisions,
    /// then speed, position, waypoint cursor and heading.  The peer
    /// snapshot is read only; the controller changes only through its
    /// reservation bookkeeping.
    #[verifier::rlimit(100)]
    pub fn update(&mut self, cars: &Vec<Car>, traffic_light: &mut TrafficLightController)
        requires
            old(self).wf(),
            old(traffic_light).wf(),
            forall|k: int| 0 <= k < cars@.len() ==> pos_in_range((#[trigger] cars@[k]).position),
        ensures
            final(self).wf(),
            final(traffic_light).wf(),
            *final(self) == update_car_spec(*old(self), cars@, *old(traffic_light)),
            final(traffic_light).phase == old(traffic_light).phase,
            final(traffic_light).yellow == old(traffic_light).yellow,
            final(traffic_light).ticks_left == old(traffic_light).ticks_left,
            final(traffic_light).extended == old(traffic_light).extended,
            final(traffic_light).reserved@ == reserved_after_update(
                *old(self),
                *old(traffic_light),
            ),
            old(self).through_intersection ==> final(self).through_intersection,
            final(self).through_intersection ==> !final(self).stopped,
            0 <= final(self).speed <= MAX_SPEED,
    {
        let ghost me0 = *self;
        let ghost t0 = *traffic_light;
        // One-time transition: past the commitment point, hand the
        // reservation back to the scheduler.
        if !self.through_intersection && self.past_intersection() {
            self.through_intersection = true;
            traffic_light.remove_car(SimplifiedCar::new(self.origin, self.direction));
        }
        // Yellow early release: a vehicle holding exactly at the stop
        // line proceeds during yellow rather than stalling mid-phase.
        let yel = traffic_light.is_yellow(self.origin, self.direction);
        if yel && self.path_index == self.path_index_at_intersection
            && !self.through_intersection {
            traffic_light.remove_car(SimplifiedCar::new(self.origin, self.direction));
            self.through_intersection = true;
        }

        self.stop_for_traffic_light(traffic_light);
        self.automatically_stop(cars);

        if !self.stopped {
            self.speed = self.speed + ACCELERATION;
            if self.speed > MAX_SPEED {
                self.speed = MAX_SPEED;
            }
        } else {
            if self.speed > 0 {
                self.speed = self.speed - DECELERATION;
                if self.speed < 0 {
                    self.speed = 0;
                }
            } else {
                self.speed = 0;
            }
        }

        // Advance along the heading.
        let cos_v = cos_cd(self.rotation);
        let sin_v = sin_cd(self.rotation);
        let dx = scale_trig(cos_v, self.speed);
        let dy = scale_trig(sin_v, self.speed);
        self.position = (clamp_coord(self.position.0 + dx), clamp_coord(self.position.1 + dy));

        // Waypoint advance and target heading.
        let target_pt = self.path[self.path_index];
        if self.intersects_point(target_pt) {
            self.path_index = self.path_index + 1;
            if self.path_index >= NUM_PATH_POINTS {
                self.path_index = 0;
                self.finished = true;
            }
            if self.path_index >= 1 {
                let wp = self.path[self.path_index];
                let tdx = wp.0 - self.position.0;
                let tdy = wp.1 - self.position.1;
                self.target_rotation = atan2_cd(tdy, tdx);
            }
        }

        // Smooth the heading halfway toward the target, along the
        // shorter arc.
        self.rotation = rotate_toward(self.rotation, self.target_rotation);

        proof {
            assert(*self == update_car_spec(me0, cars@, t0));
            assert(traffic_light.reserved@ == reserved_after_update(me0, t0));
        }
    }
}

/// A vehicle's speed stays within `[0, MAX_SPEED]`: it rises by exactly
/// the acceleration increment while rolling, up to the cap, and falls by
/// exactly the deceleration decrement while stopped, down to zero, never
/// below.
pub proof fn lemma_speed_step(stopped: bool, speed: int)
    requires
        0 <= speed <= MAX_SPEED,
    ensures
        0 <= speed_after_spec(stopped, speed) <= MAX_SPEED,
        !stopped && speed + ACCELERATION <= MAX_SPEED ==> speed_after_spec(stopped, speed) == speed
            + ACCELERATION,
        !stopped && speed + ACCELERATION > MAX_SPEED ==> speed_after_spec(stopped, speed)
            == MAX_SPEED,
        stopped && speed >= DECELERATION ==> speed_after_spec(stopped, speed) == speed
            - DECELERATION,
        stopped && speed < DECELERATION ==> speed_after_spec(stopped, speed) == 0,
{
}

/// A vehicle through the intersection stays through, and never re-enters
/// a stopped state for the light — whatever the scheduler's phase.
pub proof fn lemma_through_never_stops_for_light(
    me: Car,
    cars: Seq<Car>,
    t: TrafficLightController,
)
    requires
        me.through_intersection,
    ensures
        update_car_spec(me, cars, t).through_intersection,
        !update_car_spec(me, cars, t).stopped,
{
}

/// Half the footprint length `CAR_WIDTH`, along the heading.
pub const HALF_CAR_WIDTH: i64 = 2500;
/// Half the footprint breadth `CAR_HEIGHT`, across the heading.
pub const HALF_CAR_HEIGHT: i64 = 1650;

/// The local corner offsets of the footprint, in cyclic order: front
/// left, front right, back right, back left.
pub open spec fn corner_offset(i: int) -> (int, int) {
    if i == 0 {
        (-HALF_CAR_WIDTH as int, -HALF_CAR_HEIGHT as int)
    } else if i == 1 {
        (HALF_CAR_WIDTH as int, -HALF_CAR_HEIGHT as int)
    } else if i == 2 {
        (HALF_CAR_WIDTH as int, HALF_CAR_HEIGHT as int)
    } else {
        (-HALF_CAR_WIDTH as int, HALF_CAR_HEIGHT as int)
    }
}

/// A local offset `v` rotated by the heading `rot` and translated to
/// `pos`.
pub open spec fn rotated_corner_spec(pos: (int, int), rot: int, v: (int, int)) -> (int, int) {
    let c = cos_cd_spec(rot);
    let s = sin_cd_spec(rot);
    (pos.0 + unscale_trig_spec(v.0 * c - v.1 * s), pos.1 + unscale_trig_spec(v.0 * s + v.1 * c))
}

/// The four footprint corners of a vehicle at `pos` with heading `rot`.
pub open spec fn footprint_at(pos: (i64, i64), rot: i64) -> Seq<(i64, i64)> {
    Seq::new(
        4,
        |i: int|
            {
                let w = rotated_corner_spec(pti(pos), rot as int, corner_offset(i));
                (w.0 as i64, w.1 as i64)
            },
    )
}

/// A vehicle whose position and heading are within the numeric ranges
/// the geometry accepts.
pub open spec fn geom_ready(c: Car) -> bool {
    pos_in_range(c.position) && -HEADING_LIMIT <= c.rotation <= HEADING_LIMIT
}

impl Car {
    /// The vehicle's current footprint corners, as a sequence.
    pub open spec fn footprint(self) -> Seq<(i64, i64)> {
        footprint_at(self.position, self.rotation)
    }

    /// Rotates a local corner offset by `rotation` and translates it to
    /// `position`.
    fn get_vertex_with_pos_and_rot(vertex: (i64, i64), position: (i64, i64), rotation: i64) -> (r: (
        i64,
        i64,
    ))
        requires
            -HALF_CAR_WIDTH <= vertex.0 <= HALF_CAR_WIDTH,
            -HALF_CAR_HEIGHT <= vertex.1 <= HALF_CAR_HEIGHT,
            pos_in_range(position),
            -HEADING_LIMIT <= rotation <= HEADING_LIMIT,
        ensures
            pti(r) == rotated_corner_spec(pti(position), rotation as int, pti(vertex)),
            pt_in_range(r),
    {
        let c = cos_cd(rotation);
        let s = sin_cd(rotation);
        proof {
            assert(-25000000 <= (vertex.0 as int) * (c as int) <= 25000000 && -25000000 <= (
            vertex.0 as int) * (s as int) <= 25000000) by (nonlinear_arith)
                requires
                    -2500 <= vertex.0 <= 2500,
                    -10000 <= c <= 10000,
                    -10000 <= s <= 10000,
            ;
            assert(-16500000 <= (vertex.1 as int) * (c as int) <= 16500000 && -16500000 <= (
            vertex.1 as int) * (s as int) <= 16500000) by (nonlinear_arith)
                requires
                    -1650 <= vertex.1 <= 1650,
                    -10000 <= c <= 10000,
                    -10000 <= s <= 10000,
            ;
        }
        let tx = vertex.0 * c - vertex.1 * s;
        let ty = vertex.0 * s + vertex.1 * c;
        let ox = unscale_trig(tx);
        let oy = unscale_trig(ty);
        proof {
            assert(-4150 <= ox <= 4150);
            assert(-4150 <= oy <= 4150);
        }
        (position.0 + ox, position.1 + oy)
    }

    /// Rotates a local corner offset into this vehicle's frame.
    fn get_vertex(&self, vertex: (i64, i64)) -> (r: (i64, i64))
        requires
            -HALF_CAR_WIDTH <= vertex.0 <= HALF_CAR_WIDTH,
            -HALF_CAR_HEIGHT <= vertex.1 <= HALF_CAR_HEIGHT,
            geom_ready(*self),
        ensures
            pti(r) == rotated_corner_spec(pti(self.position), self.rotation as int, pti(vertex)),
            pt_in_range(r),
    {
        Self::get_vertex_with_pos_and_rot(vertex, self.position, self.rotation)
    }

    /// The footprint corners for a position and heading, in cyclic
    /// order.
    #[verifier::rlimit(60)]
    pub fn vertices_with_pos_and_rot(position: (i64, i64), rotation: i64) -> (r: [(i64, i64); 4])
        requires
            pos_in_range(position),
            -HEADING_LIMIT <= rotation <= HEADING_LIMIT,
        ensures
            r@ == footprint_at(position, rotation),
            corners_in_range(r@),
    {
        let front_left = Self::get_vertex_with_pos_and_rot(
            (-HALF_CAR_WIDTH, -HALF_CAR_HEIGHT),
            position,
            rotation,
        );
        let front_right = Self::get_vertex_with_pos_and_rot(
            (HALF_CAR_WIDTH, -HALF_CAR_HEIGHT),
            position,
            rotation,
        );
        let back_right = Self::get_vertex_with_pos_and_rot(
            (HALF_CAR_WIDTH, HALF_CAR_HEIGHT),
            position,
            rotation,
        );
        let back_left = Self::get_vertex_with_pos_and_rot(
            (-HALF_CAR_WIDTH, HALF_CAR_HEIGHT),
            position,
            rotation,
        );
        let r = [front_left, front_right, back_right, back_left];
        proof {
            assert(r@ =~= footprint_at(position, rotation));
        }
        r
    }

    /// The vehicle's current footprint corners.
    #[verifier::rlimit(60)]
    pub fn vertices(&self) -> (r: [(i64, i64); 4])
        requires
            geom_ready(*self),
        ensures
            r@ == self.footprint(),
            corners_in_range(r@),
    {
        let front_left = self.get_vertex((-HALF_CAR_WIDTH, -HALF_CAR_HEIGHT));
        let front_right = self.get_vertex((HALF_CAR_WIDTH, -HALF_CAR_HEIGHT));
        let back_right = self.get_vertex((HALF_CAR_WIDTH, HALF_CAR_HEIGHT));
        let back_left = self.get_vertex((-HALF_CAR_WIDTH, HALF_CAR_HEIGHT));
        let r = [front_left, front_right, back_right, back_left];
        proof {
            assert(r@ =~= self.footprint());
        }
        r
    }

    /// Whether this vehicle's footprint overlaps the quadrilateral with
    /// the given corners.
    pub fn intersects_rect(&self, other_vertices: [(i64, i64); 4]) -> (r: bool)
        requires
            geom_ready(*self),
            corners_in_range(other_vertices@),
        ensures
            r == quads_overlap(self.footprint(), other_vertices@),
    {
        let mine = self.vertices();
        quads_intersect(&mine, &other_vertices)
    }

    /// Overlap test of two footprints given by their corners.
    fn intersects_rect_with_two_cars(
        vertices: [(i64, i64); 4],
        other_vertices: [(i64, i64); 4],
    ) -> (r: bool)
        requires
            corners_in_range(vertices@),
            corners_in_range(other_vertices@),
        ensures
            r == quads_overlap(vertices@, other_vertices@),
    {
        quads_intersect(&vertices, &other_vertices)
    }

    /// Whether the footprints of two vehicles at the given positions and
    /// headings overlap.
    pub fn cars_intersect(
        position1: (i64, i64),
        rotation1: i64,
        position2: (i64, i64),
        rotation2: i64,
    ) -> (r: bool)
        requires
            pos_in_range(position1),
            pos_in_range(position2),
            -HEADING_LIMIT <= rotation1 <= HEADING_LIMIT,
            -HEADING_LIMIT <= rotation2 <= HEADING_LIMIT,
        ensures
            r == quads_overlap(
                footprint_at(position1, rotation1),
                footprint_at(position2, rotation2),
            ),
    {
        let vertices1 = Self::vertices_with_pos_and_rot(position1, rotation1);
        let vertices2 = Self::vertices_with_pos_and_rot(position2, rotation2);
        Self::intersects_rect_with_two_cars(vertices1, vertices2)
    }

    /// The visual overlap flag: whether this vehicle's footprint crosses
    /// that of any other vehicle.  Read-only state for the renderer; it
    /// never feeds back into the simulation.
    pub fn overlaps_any(&self, cars: &Vec<Car>) -> (r: bool)
        requires
            geom_ready(*self),
            forall|k: int| 0 <= k < cars@.len() ==> geom_ready(#[trigger] cars@[k]),
        ensures
            r == exists|k: int|
                0 <= k < cars@.len() && (#[trigger] cars@[k]).id != self.id && quads_overlap(
                    self.footprint(),
                    cars@[k].footprint(),
                ),
    {
        let mine = self.vertices();
        let mut i: usize = 0;
        while i < cars.len()
            invariant
                0 <= i <= cars@.len(),
                geom_ready(*self),
                forall|k: int| 0 <= k < cars@.len() ==> geom_ready(#[trigger] cars@[k]),
                mine@ == self.footprint(),
                corners_in_range(mine@),
                forall|k: int|
                    0 <= k < i ==> !((#[trigger] cars@[k]).id != self.id && quads_overlap(
                        self.footprint(),
                        cars@[k].footprint(),
                    )),
            decreases cars@.len() - i,
        {
            let c = &cars[i];
            if c.id != self.id {
                let theirs = Self::vertices_with_pos_and_rot(c.position, c.rotation);
                if quads_intersect(&mine, &theirs) {
                    proof {
                        assert(cars@[i as int].id != self.id && quads_overlap(
                            self.footprint(),
                            cars@[i as int].footprint(),
                        ));
                    }
                    return true;
                }
            }
            i = i + 1;
        }
        false
    }
}

} // verus!