//! The intersection scheduler: a discrete state machine over movement
//! groups that cycles four compatible-group sets through green and yellow
//! sub-phases of fixed duration, and tracks which groups currently hold a
//! reservation in the intersection.
//!
//! A group is registered implicitly when it is granted a green or yellow
//! query, and released when one of its vehicles reports having passed the
//! commitment point.  A yellow sub-phase whose time has run out is
//! extended once, by the yellow duration, while a granted group is still
//! reserved; the switch then clears the stale reservations of the
//! outgoing sets.  A query for a group the current phase does not serve
//! defaults to "not green", failing safe toward stopping.

use vstd::prelude::*;

use crate::movement::{group_index, group_index_spec, Direction, Origin, NUM_GROUPS};
use crate::params::{GREEN_TICKS, YELLOW_TICKS};

verus! {

/// The scheduler's identity for a tracked vehicle: its movement group.
#[derive(Clone, Copy, PartialEq, Eq, Debug, Hash, Structural)]
pub struct SimplifiedCar {
    pub origin: Origin,
    pub direction: Direction,
}

impl SimplifiedCar {
    /// Builds the scheduler identity of a vehicle.
    pub fn new(origin: Origin, direction: Direction) -> (c: SimplifiedCar)
        ensures
            c.origin == origin,
            c.direction == direction,
    {
        SimplifiedCar { origin, direction }
    }
}

/// The four compatible-group sets the cycle serves, in order.  Opposing
/// through-and-right movements share a set, and opposing left turns share
/// a set; sets of different streets or different turn kinds conflict.
#[derive(Clone, Copy, PartialEq, Eq, Debug, Structural)]
pub enum Phase {
    NorthSouthThrough,
    NorthSouthLeft,
    EastWestThrough,
    EastWestLeft,
}

/// Whether the movement group with index `g` is served by `phase`.
/// Group indices follow [`group_index_spec`].
pub open spec fn grants_index(phase: Phase, g: int) -> bool {
    match phase {
        Phase::NorthSouthThrough => g == 1 || g == 2 || g == 4 || g == 5,
        Phase::NorthSouthLeft => g == 0 || g == 3,
        Phase::EastWestThrough => g == 7 || g == 8 || g == 10 || g == 11,
        Phase::EastWestLeft => g == 6 || g == 9,
    }
}

/// Whether `phase` serves the movement group `(origin, direction)`.
pub open spec fn phase_grants(phase: Phase, origin: Origin, direction: Direction) -> bool {
    grants_index(phase, group_index_spec(origin, direction))
}

/// The set served after `phase`.
pub open spec fn next_phase_spec(phase: Phase) -> Phase {
    match phase {
        Phase::NorthSouthThrough => Phase::NorthSouthLeft,
        Phase::NorthSouthLeft => Phase::EastWestThrough,
        Phase::EastWestThrough => Phase::EastWestLeft,
        Phase::EastWestLeft => Phase::NorthSouthThrough,
    }
}

/// Whether two movement groups may hold green at the same time: they run
/// on the same street and are both turning left or both not.
pub open spec fn compatible_groups(
    o1: Origin,
    d1: Direction,
    o2: Origin,
    d2: Direction,
) -> bool {
    let ns1 = o1 == Origin::North || o1 == Origin::South;
    let ns2 = o2 == Origin::North || o2 == Origin::South;
    ns1 == ns2 && ((d1 == Direction::Left) == (d2 == Direction::Left))
}

/// The traffic-light controller.  `reserved[g]` records that movement
/// group `g` currently holds a reservation in the intersection.
pub struct TrafficLightController {
    /// The compatible-group set currently served.
    pub phase: Phase,
    /// Whether the served set is in its yellow sub-phase.
    pub yellow: bool,
    /// Ticks left in the current sub-phase.
    pub ticks_left: u64,
    /// Whether the current yellow sub-phase has already been extended.
    pub extended: bool,
    /// Reservation of each movement group, indexed by group index.
    pub reserved: Vec<bool>,
}

/// A group query is green: the current set serves it and is not yellow.
pub open spec fn is_green_spec(t: TrafficLightController, origin: Origin, direction: Direction) -> bool {
    phase_grants(t.phase, origin, direction) && !t.yellow
}

/// A group query is yellow: the current set serves it and is yellow.
pub open spec fn is_yellow_spec(t: TrafficLightController, origin: Origin, direction: Direction) -> bool {
    phase_grants(t.phase, origin, direction) && t.yellow
}

/// Some group served by the current set still holds a reservation.
pub open spec fn phase_blocked(t: TrafficLightController) -> bool {
    exists|g: int| 0 <= g < NUM_GROUPS && grants_index(t.phase, g) && t.reserved@[g]
}

impl TrafficLightController {
    /// Well-formedness: one reservation slot per movement group, and the
    /// sub-phase clock within its duration.
    pub open spec fn wf(self) -> bool {
        &&& self.reserved@.len() == NUM_GROUPS
        &&& self.ticks_left <= GREEN_TICKS
        &&& YELLOW_TICKS <= GREEN_TICKS
    }

    /// A fresh controller: serving the north-south through set, green,
    /// with no reservations.
    pub fn new() -> (t: TrafficLightController)
        ensures
            t.wf(),
            t.phase == Phase::NorthSouthThrough,
            !t.yellow,
            !t.extended,
            t.ticks_left == GREEN_TICKS,
            forall|g: int| 0 <= g < NUM_GROUPS ==> !(#[trigger] t.reserved@[g]),
    {
        let mut reserved: Vec<bool> = Vec::new();
        let mut i: usize = 0;
        while i < NUM_GROUPS
            invariant
                0 <= i <= NUM_GROUPS,
                reserved@.len() == i,
                forall|g: int| 0 <= g < i ==> !(#[trigger] reserved@[g]),
            decreases NUM_GROUPS - i,
        {
            reserved.push(false);
            i = i + 1;
        }
        TrafficLightController {
            phase: Phase::NorthSouthThrough,
            yellow: false,
            ticks_left: GREEN_TICKS,
            extended: false,
            reserved,
        }
    }

    /// Whether `phase` serves the group `(origin, direction)`.
    pub fn grants(phase: Phase, origin: Origin, direction: Direction) -> (r: bool)
        ensures
            r == phase_grants(phase, origin, direction),
    {
        match phase {
            Phase::NorthSouthThrough => (matches!(origin, Origin::North | Origin::South))
                && (matches!(direction, Direction::Straight | Direction::Right)),
            Phase::NorthSouthLeft => (matches!(origin, Origin::North | Origin::South)) && (matches!(
                direction,
                Direction::Left,
            )),
            Phase::EastWestThrough => (matches!(origin, Origin::East | Origin::West)) && (matches!(
                direction,
                Direction::Straight | Direction::Right,
            )),
            Phase::EastWestLeft => (matches!(origin, Origin::East | Origin::West)) && (matches!(
                direction,
                Direction::Left,
            )),
        }
    }

    /// Whether the group currently has green.  A granted query registers
    /// the group as occupying the intersection.
    pub fn is_green(&mut self, origin: Origin, direction: Direction) -> (r: bool)
        requires
            old(self).wf(),
        ensures
            final(self).wf(),
            r == is_green_spec(*old(self), origin, direction),
            final(self).phase == old(self).phase,
            final(self).yellow == old(self).yellow,
            final(self).ticks_left == old(self).ticks_left,
            final(self).extended == old(self).extended,
            final(self).reserved@ == (if r {
                old(self).reserved@.update(group_index_spec(origin, direction), true)
            } else {
                old(self).reserved@
            }),
    {
        let grant = Self::grants(self.phase, origin, direction) && !self.yellow;
        if grant {
            let g = group_index(origin, direction);
            self.reserved[g] = true;
        }
        grant
    }

    /// Whether the group is currently in its yellow sub-phase.  A granted
    /// query registers the group: a vehicle crossing on yellow occupies
    /// the intersection.
    pub fn is_yellow(&mut self, origin: Origin, direction: Direction) -> (r: bool)
        requires
            old(self).wf(),
        ensures
            final(self).wf(),
            r == is_yellow_spec(*old(self), origin, direction),
            final(self).phase == old(self).phase,
            final(self).yellow == old(self).yellow,
            final(self).ticks_left == old(self).ticks_left,
            final(self).extended == old(self).extended,
            final(self).reserved@ == (if r {
                old(self).reserved@.update(group_index_spec(origin, direction), true)
            } else {
                old(self).reserved@
            }),
    {
        let grant = Self::grants(self.phase, origin, direction) && self.yellow;
        if grant {
            let g = group_index(origin, direction);
            self.reserved[g] = true;
        }
        grant
    }

    /// Releases the reservation of a vehicle's movement group.  Removing
    /// a group that is not tracked is a silent no-op: several paths may
    /// report the same vehicle, and a second removal changes nothing.
    pub fn remove_car(&mut self, car: SimplifiedCar)
        requires
            old(self).wf(),
        ensures
            final(self).wf(),
            final(self).phase == old(self).phase,
            final(self).yellow == old(self).yellow,
            final(self).ticks_left == old(self).ticks_left,
            final(self).extended == old(self).extended,
            final(self).reserved@ == old(self).reserved@.update(
                group_index_spec(car.origin, car.direction),
                false,
            ),
    {
        let g = group_index(car.origin, car.direction);
        self.reserved[g] = false;
    }

    /// Whether some group served by the current set holds a reservation.
    fn blocked(&self) -> (r: bool)
        requires
            self.wf(),
        ensures
            r == phase_blocked(*self),
    {
        let mut g: usize = 0;
        while g < NUM_GROUPS
            invariant
                0 <= g <= NUM_GROUPS,
                self.wf(),
                forall|h: int| 0 <= h < g ==> !(grants_index(self.phase, h) && self.reserved@[h]),
            decreases NUM_GROUPS - g,
        {
            let served = match self.phase {
                Phase::NorthSouthThrough => g == 1 || g == 2 || g == 4 || g == 5,
                Phase::NorthSouthLeft => g == 0 || g == 3,
                Phase::EastWestThrough => g == 7 || g == 8 || g == 10 || g == 11,
                Phase::EastWestLeft => g == 6 || g == 9,
            };
            if served && self.reserved[g] {
                proof {
                    assert(grants_index(self.phase, g as int) && self.reserved@[g as int]);
                }
                return true;
            }
            g = g + 1;
        }
        false
    }

    /// Advances the phase clock by one tick.  A sub-phase runs its fixed
    /// duration; an expired green turns yellow; an expired yellow whose
    /// served groups are still reserved is extended once by the yellow
    /// duration; otherwise the cycle moves to the next set, green, and
    /// the outgoing set's stale reservations are dropped.
    pub fn tick(&mut self)
        requires
            old(self).wf(),
        ensures
            final(self).wf(),
            old(self).ticks_left > 0 ==> *final(self) == (TrafficLightController {
                ticks_left: (old(self).ticks_left - 1) as u64,
                ..*old(self)
            }),
            old(self).ticks_left == 0 && !old(self).yellow ==> *final(self)
                == (TrafficLightController {
                yellow: true,
                ticks_left: YELLOW_TICKS,
                extended: false,
                ..*old(self)
            }),
            old(self).ticks_left == 0 && old(self).yellow && phase_blocked(*old(self)) && !old(
                self,
            ).extended ==> *final(self) == (TrafficLightController {
                ticks_left: YELLOW_TICKS,
                extended: true,
                ..*old(self)
            }),
            old(self).ticks_left == 0 && old(self).yellow && !(phase_blocked(*old(self)) && !old(
                self,
            ).extended) ==> {
                &&& final(self).phase == next_phase_spec(old(self).phase)
                &&& !final(self).yellow
                &&& !final(self).extended
                &&& final(self).ticks_left == GREEN_TICKS
                &&& final(self).reserved@.len() == NUM_GROUPS
                &&& forall|g: int|
                    0 <= g < NUM_GROUPS ==> final(self).reserved@[g] == (if grants_index(
                        old(self).phase,
                        g,
                    ) {
                        false
                    } else {
                        old(self).reserved@[g]
                    })
            },
            final(self).phase != old(self).phase ==> old(self).yellow && old(self).ticks_left == 0
                && (old(self).extended || !phase_blocked(*old(self))),
    {
        if self.ticks_left > 0 {
            self.ticks_left = self.ticks_left - 1;
        } else if !self.yellow {
            self.yellow = true;
            self.ticks_left = YELLOW_TICKS;
            self.extended = false;
        } else if self.blocked() && !self.extended {
            self.ticks_left = YELLOW_TICKS;
            self.extended = true;
        } else {
            let ghost old_reserved = self.reserved@;
            let mut g: usize = 0;
            while g < NUM_GROUPS
                invariant
                    0 <= g <= NUM_GROUPS,
                    self.reserved@.len() == NUM_GROUPS,
                    old_reserved.len() == NUM_GROUPS,
                    old_reserved == old(self).reserved@,
                    self.phase == old(self).phase,
                    self.yellow == old(self).yellow,
                    self.ticks_left == old(self).ticks_left,
                    self.extended == old(self).extended,
                    forall|h: int|
                        0 <= h < g ==> self.reserved@[h] == (if grants_index(self.phase, h) {
                            false
                        } else {
                            old_reserved[h]
                        }),
                    forall|h: int| g <= h < NUM_GROUPS ==> self.reserved@[h] == old_reserved[h],
                decreases NUM_GROUPS - g,
            {
                let served = match self.phase {
                    Phase::NorthSouthThrough => g == 1 || g == 2 || g == 4 || g == 5,
                    Phase::NorthSouthLeft => g == 0 || g == 3,
                    Phase::EastWestThrough => g == 7 || g == 8 || g == 10 || g == 11,
                    Phase::EastWestLeft => g == 6 || g == 9,
                };
                if served {
                    self.reserved[g] = false;
                }
                g = g + 1;
            }
            self.phase = match self.phase {
                Phase::NorthSouthThrough => Phase::NorthSouthLeft,
                Phase::NorthSouthLeft => Phase::EastWestThrough,
                Phase::EastWestThrough => Phase::EastWestLeft,
                Phase::EastWestLeft => Phase::NorthSouthThrough,
            };
            self.yellow = false;
            self.extended = false;
            self.ticks_left = GREEN_TICKS;
        }
    }
}

/// No two conflicting movement groups hold green at the same time: any
/// two groups granted green by the same controller state run on the same
/// street and share their turn kind.
pub proof fn lemma_no_conflicting_greens(
    t: TrafficLightController,
    o1: Origin,
    d1: Direction,
    o2: Origin,
    d2: Direction,
)
    requires
        is_green_spec(t, o1, d1),
        is_green_spec(t, o2, d2),
    ensures
        compatible_groups(o1, d1, o2, d2),
{
}

/// Releasing a movement group is idempotent: a second removal of the
/// same identity changes no reservation state.
pub proof fn lemma_remove_car_idempotent(reserved: Seq<bool>, g: int)
    requires
        0 <= g < reserved.len(),
    ensures
        reserved.update(g, false).update(g, false) == reserved.update(g, false),
{
    assert(reserved.update(g, false).update(g, false) =~= reserved.update(g, false));
}

} // verus!