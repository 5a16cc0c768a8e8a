//! A vehicle of the greedy model.
//!
//! A vehicle drives with a fixed velocity along its approach. Once it has
//! driven far enough for its route it makes its turn decision: the velocity
//! swings a quarter turn (or stays, when it goes straight) and the vehicle
//! counts as turned from then on.

use vstd::prelude::*;
use crate::app_config::{
    AHEAD_CHECK_DISTANCE, AHEAD_CHECK_LATERAL, CAR_SIZE, CAR_SPEED, DESPAWN_OFFSET, LANE_OFFSET,
    PALETTE_SIZE, SCREEN_MAX, SPEED_EPSILON, SPEED_MAX, STOP_BAND,
};
use crate::geometry::{coord_ok, dist_sq, distance_squared, point_ok, Point};
use crate::types::{Origin, Route};

verus! {

/// Both components of the velocity `s` are within [`SPEED_MAX`].
pub open spec fn speed_ok(s: (i64, i64)) -> bool {
    -SPEED_MAX <= s.0 <= SPEED_MAX && -SPEED_MAX <= s.1 <= SPEED_MAX
}

/// Width and height of a screen that the model accepts.
pub open spec fn screen_ok(screen: (i64, i64)) -> bool {
    0 <= screen.0 <= SCREEN_MAX && 0 <= screen.1 <= SCREEN_MAX
}

/// A centre of the intersection that lies on an accepted screen.
pub open spec fn center_ok(center: Point) -> bool {
    0 <= center.0 <= SCREEN_MAX && 0 <= center.1 <= SCREEN_MAX
}

#[derive(Debug, Clone, Copy, PartialEq, Eq)]
pub struct Vehicle {
    /// Identifier, unique among the vehicles of one simulation.
    pub id: usize,
    /// Position of the centre of the vehicle.
    pub pos: Point,
    /// Displacement per tick.
    pub speed: (i64, i64),
    pub origin: Origin,
    pub route: Route,
    /// Index of the body colour in the palette.
    pub color: usize,
    /// Whether the turn decision has been made.
    pub turned: bool,
}

impl Vehicle {
    /// Position and velocity are within the machine limits of the model.
    pub open spec fn in_limits(&self) -> bool {
        point_ok(self.pos) && speed_ok(self.speed)
    }

    /// Position and velocity are within the machine limits of the model and
    /// the colour is one of the palette.
    pub open spec fn wf(&self) -> bool {
        self.in_limits() && self.color < PALETTE_SIZE
    }

    /// Distance driven past the centre of the intersection, measured along
    /// the heading of the approach. It is negative before the centre.
    pub open spec fn progress(self, center: Point) -> int {
        let h = self.origin.heading();
        (self.pos.0 - center.0) * h.0 + (self.pos.1 - center.1) * h.1
    }

    /// Progress that a vehicle must exceed to make its turn decision.
    pub open spec fn turn_threshold(route: Route) -> int {
        match route {
            Route::Straight => LANE_OFFSET as int,
            Route::Right => -CAR_SIZE,
            Route::Left => CAR_SIZE as int,
        }
    }

    /// Velocity after the manoeuvre `route` of a vehicle from `origin`.
    pub open spec fn turn_velocity(origin: Origin, route: Route) -> (int, int) {
        let h = route.turn(origin.heading());
        (CAR_SPEED * h.0, CAR_SPEED * h.1)
    }

    /// The vehicle after one look at its turning point: unchanged short of
    /// it; past it, marked as turned, and on a left or right route with the
    /// velocity of that manoeuvre.
    pub open spec fn after_turn_check(self, center: Point) -> Vehicle {
        if self.progress(center) > Self::turn_threshold(self.route) {
            let v = Self::turn_velocity(self.origin, self.route);
            Vehicle {
                turned: true,
                speed: if self.route == Route::Straight {
                    self.speed
                } else {
                    (v.0 as i64, v.1 as i64)
                },
                ..self
            }
        } else {
            self
        }
    }

    /// The vehicle after one tick of unhindered driving: moved by its
    /// velocity, and then, unless it had turned before, checked against its
    /// turning point.
    pub open spec fn advanced(self, center: Point) -> Vehicle {
        let moved = Vehicle {
            pos: ((self.pos.0 + self.speed.0) as i64, (self.pos.1 + self.speed.1) as i64),
            ..self
        };
        if self.turned {
            moved
        } else {
            moved.after_turn_check(center)
        }
    }

    /// The vehicle is more than [`DESPAWN_OFFSET`] beyond an edge of the
    /// screen.
    pub open spec fn out_of_bounds(self, screen: (i64, i64)) -> bool {
        ||| self.pos.0 < -DESPAWN_OFFSET
        ||| self.pos.0 > screen.0 + DESPAWN_OFFSET
        ||| self.pos.1 < -DESPAWN_OFFSET
        ||| self.pos.1 > screen.1 + DESPAWN_OFFSET
    }

    /// The vehicle is inside the stop band of its approach: short of the
    /// intersection by more than [`LANE_OFFSET`] and by less than
    /// [`LANE_OFFSET`] plus [`STOP_BAND`].
    pub open spec fn at_stop_line(self, center: Point) -> bool {
        -(LANE_OFFSET + STOP_BAND) < self.progress(center) < -LANE_OFFSET
    }

    /// The vehicle has not made its turn decision, is inside its stop band
    /// and its approach does not have green.
    pub open spec fn held_at_red(self, active_green: Option<Origin>, center: Point) -> bool {
        !self.turned && self.at_stop_line(center) && active_green != Some(self.origin)
    }

    /// `other` lies strictly ahead of the vehicle along the axis on which it
    /// drives, and less than [`AHEAD_CHECK_LATERAL`] to either side. The axis
    /// is `x` when the vehicle drives faster than [`SPEED_EPSILON`] along it,
    /// else `y` when it does so along `y`; a vehicle at rest sees nothing
    /// ahead.
    pub open spec fn sees_ahead(self, other: Point) -> bool {
        if self.speed.0 > SPEED_EPSILON {
            other.0 > self.pos.0 && vstd::math::abs(other.1 - self.pos.1) < AHEAD_CHECK_LATERAL
        } else if self.speed.0 < -SPEED_EPSILON {
            other.0 < self.pos.0 && vstd::math::abs(other.1 - self.pos.1) < AHEAD_CHECK_LATERAL
        } else if self.speed.1 > SPEED_EPSILON {
            other.1 > self.pos.1 && vstd::math::abs(other.0 - self.pos.0) < AHEAD_CHECK_LATERAL
        } else if self.speed.1 < -SPEED_EPSILON {
            other.1 < self.pos.1 && vstd::math::abs(other.0 - self.pos.0) < AHEAD_CHECK_LATERAL
        } else {
            false
        }
    }

    /// `other` is a different vehicle, closer than [`AHEAD_CHECK_DISTANCE`]
    /// and ahead.
    pub open spec fn blocked_by(self, other: Vehicle) -> bool {
        &&& other.id != self.id
        &&& dist_sq(self.pos, other.pos) < AHEAD_CHECK_DISTANCE * AHEAD_CHECK_DISTANCE
        &&& self.sees_ahead(other.pos)
    }

    /// The vehicle may drive this tick: it is not held at a red signal and no
    /// vehicle of `vehicles` blocks it.
    pub open spec fn can_advance(
        self,
        vehicles: Seq<Vehicle>,
        active_green: Option<Origin>,
        center: Point,
    ) -> bool {
        &&& !self.held_at_red(active_green, center)
        &&& forall|j: int| 0 <= j < vehicles.len() ==> !self.blocked_by(#[trigger] vehicles[j])
    }

    /// A vehicle that has not made its turn decision.
    pub fn new(
        id: usize,
        pos: Point,
        speed: (i64, i64),
        origin: Origin,
        route: Route,
        color: usize,
    ) -> (v: Vehicle)
        ensures
            v == (Vehicle { id, pos, speed, origin, route, color, turned: false }),
    {
        Vehicle { id, pos, speed, origin, route, color, turned: false }
    }

    /// Drives for one tick.
    pub fn update(&mut self, center: Point)
        requires
            old(self).in_limits(),
            point_ok(center),
        ensures
            *final(self) == old(self).advanced(center),
    {
        self.pos.0 += self.speed.0;
        self.pos.1 += self.speed.1;

        if !self.turned {
            self.update_turning_direction(center);
        }
    }

    /// Whether the vehicle has left the screen for good.
    pub fn should_despawn(&self, screen: (i64, i64)) -> (gone: bool)
        requires
            screen_ok(screen),
        ensures
            gone == self.out_of_bounds(screen),
    {
        self.pos.0 < -DESPAWN_OFFSET || self.pos.0 > screen.0 + DESPAWN_OFFSET || self.pos.1
            < -DESPAWN_OFFSET || self.pos.1 > screen.1 + DESPAWN_OFFSET
    }

    /// Makes the turn decision if the vehicle is past its turning point.
    pub fn update_turning_direction(&mut self, center: Point)
        requires
            point_ok(center),
        ensures
            *final(self) == old(self).after_turn_check(center),
    {
        let s: i64 = CAR_SPEED;
        match self.route {
            Route::Straight => {
                let passed = match self.origin {
                    Origin::South => self.pos.1 < center.1 - LANE_OFFSET,
                    Origin::North => self.pos.1 > center.1 + LANE_OFFSET,
                    Origin::East => self.pos.0 > center.0 + LANE_OFFSET,
                    Origin::West => self.pos.0 < center.0 - LANE_OFFSET,
                };
                if passed {
                    self.turned = true;
                }
            },
            Route::Right => {
                let turn_p = match self.origin {
                    Origin::South => self.pos.1 < center.1 + CAR_SIZE,
                    Origin::North => self.pos.1 > center.1 - CAR_SIZE,
                    Origin::East => self.pos.0 > center.0 - CAR_SIZE,
                    Origin::West => self.pos.0 < center.0 + CAR_SIZE,
                };
                if turn_p {
                    self.speed = match self.origin {
                        Origin::South => (s, 0),
                        Origin::North => (-s, 0),
                        Origin::East => (0, s),
                        Origin::West => (0, -s),
                    };
                    self.turned = true;
                }
            },
            Route::Left => {
                let turn_p = match self.origin {
                    Origin::South => self.pos.1 < center.1 - CAR_SIZE,
                    Origin::North => self.pos.1 > center.1 + CAR_SIZE,
                    Origin::East => self.pos.0 > center.0 + CAR_SIZE,
                    Origin::West => self.pos.0 < center.0 - CAR_SIZE,
                };
                if turn_p {
                    self.speed = match self.origin {
                        Origin::South => (-s, 0),
                        Origin::North => (s, 0),
                        Origin::East => (0, -s),
                        Origin::West => (0, s),
                    };
                    self.turned = true;
                }
            },
        }
    }

    /// Whether the vehicle may drive this tick, given the signal and the
    /// other vehicles. The vehicle itself may be among `vehicles`.
    pub fn is_safe_to_move(
        &self,
        vehicles: &[Vehicle],
        active_green: Option<Origin>,
        center: Point,
    ) -> (safe: bool)
        requires
            point_ok(self.pos),
            point_ok(center),
            all_in_plane(vehicles@),
        ensures
            safe == self.can_advance(vehicles@, active_green, center),
    {
        if !self.turned {
            let is_at_stop = match self.origin {
                Origin::South => self.pos.1 > center.1 + LANE_OFFSET && self.pos.1 < center.1 + (
                LANE_OFFSET + STOP_BAND),
                Origin::North => self.pos.1 < center.1 - LANE_OFFSET && self.pos.1 > center.1 - (
                LANE_OFFSET + STOP_BAND),
                Origin::East => self.pos.0 < center.0 - LANE_OFFSET && self.pos.0 > center.0 - (
                LANE_OFFSET + STOP_BAND),
                Origin::West => self.pos.0 > center.0 + LANE_OFFSET && self.pos.0 < center.0 + (
                LANE_OFFSET + STOP_BAND),
            };
            let has_green = match active_green {
                Some(lane) => lane == self.origin,
                None => false,
            };
            if is_at_stop && !has_green {
                return false;
            }
        }
        let reach: u64 = (AHEAD_CHECK_DISTANCE * AHEAD_CHECK_DISTANCE) as u64;
        let mut i: usize = 0;
        while i < vehicles.len()
            invariant
                i <= vehicles@.len(),
                point_ok(self.pos),
                reach == AHEAD_CHECK_DISTANCE * AHEAD_CHECK_DISTANCE,
                all_in_plane(vehicles@),
                forall|j: int| 0 <= j < i ==> !self.blocked_by(#[trigger] vehicles@[j]),
            decreases vehicles@.len() - i,
        {
            let other = &vehicles[i];
            if self.id != other.id {
                let dist_sq = distance_squared(self.pos, other.pos);
                if dist_sq < reach && self.is_ahead(other.pos) {
                    return false;
                }
            }
            i += 1;
        }
        true
    }

    /// Whether the point `other` is ahead of the vehicle, in its lane.
    pub fn is_ahead(&self, other: Point) -> (ahead: bool)
        requires
            point_ok(self.pos),
            point_ok(other),
        ensures
            ahead == self.sees_ahead(other),
    {
        if self.speed.0 > SPEED_EPSILON {
            return other.0 > self.pos.0 && abs_diff(other.1, self.pos.1) < AHEAD_CHECK_LATERAL;
        }
        if self.speed.0 < -SPEED_EPSILON {
            return other.0 < self.pos.0 && abs_diff(other.1, self.pos.1) < AHEAD_CHECK_LATERAL;
        }
        if self.speed.1 > SPEED_EPSILON {
            return other.1 > self.pos.1 && abs_diff(other.0, self.pos.0) < AHEAD_CHECK_LATERAL;
        }
        if self.speed.1 < -SPEED_EPSILON {
            return other.1 < self.pos.1 && abs_diff(other.0, self.pos.0) < AHEAD_CHECK_LATERAL;
        }
        false
    }
}

/// Every vehicle of the collection is at a point within the machine limits
/// of the model.
pub open spec fn all_in_plane(vehicles: Seq<Vehicle>) -> bool {
    forall|j: int| 0 <= j < vehicles.len() ==> point_ok((#[trigger] vehicles[j]).pos)
}

/// The velocity of a vehicle changes only in the tick in which it makes its
/// turn decision, and then to [`CAR_SPEED`] along one axis.
pub proof fn lemma_velocity_changes_only_at_turn(v: Vehicle, center: Point)
    ensures
        v.advanced(center).speed != v.speed ==> {
            let s = v.advanced(center).speed;
            &&& !v.turned
            &&& v.advanced(center).turned
            &&& v.route != Route::Straight
            &&& (s.0 == 0 && (s.1 == CAR_SPEED || s.1 == -CAR_SPEED)) || (s.1 == 0 && (s.0
                == CAR_SPEED || s.0 == -CAR_SPEED))
        },
        v.turned ==> v.advanced(center).turned,
        v.advanced(center).origin == v.origin,
        v.advanced(center).route == v.route,
        v.advanced(center).id == v.id,
{
}

/// The vehicles of the approach `origin` that have not made their turn
/// decision.
pub open spec fn queued_in(origin: Origin) -> spec_fn(Vehicle) -> bool {
    |v: Vehicle| v.origin == origin && !v.turned
}

/// Occupancy of a lane: the number of vehicles of the approach `origin`
/// that have not made their turn decision.
pub open spec fn lane_count(vehicles: Seq<Vehicle>, origin: Origin) -> nat {
    vehicles.filter(queued_in(origin)).len()
}

/// Counting up to and including the vehicle at `i` adds one to the count
/// before it exactly when that vehicle is queued in the lane.
pub proof fn lemma_lane_count_step(vehicles: Seq<Vehicle>, origin: Origin, i: int)
    requires
        0 <= i < vehicles.len(),
    ensures
        lane_count(vehicles.take(i + 1), origin) == lane_count(vehicles.take(i), origin) + (if vehicles[i].origin
            == origin && !vehicles[i].turned {
            1nat
        } else {
            0nat
        }),
{
    reveal(Seq::filter);
    assert(vehicles.take(i + 1).drop_last() =~= vehicles.take(i));
}

/// Appending a vehicle adds one to the count of its own lane, if it has not
/// turned, and nothing to the others.
pub proof fn lemma_lane_count_push(vehicles: Seq<Vehicle>, v: Vehicle, origin: Origin)
    ensures
        lane_count(vehicles.push(v), origin) == lane_count(vehicles, origin) + (if v.origin == origin
            && !v.turned {
            1nat
        } else {
            0nat
        }),
{
    reveal(Seq::filter);
    assert(vehicles.push(v).drop_last() =~= vehicles);
}

/// Occupancy of the lane of `origin`.
pub fn lane_occupancy(vehicles: &[Vehicle], origin: Origin) -> (n: usize)
    ensures
        n == lane_count(vehicles@, origin),
{
    let mut n: usize = 0;
    let mut i: usize = 0;
    proof {
        reveal(Seq::filter);
        assert(vehicles@.take(0) =~= Seq::<Vehicle>::empty());
    }
    while i < vehicles.len()
        invariant
            i <= vehicles@.len(),
            n <= i,
            n == lane_count(vehicles@.take(i as int), origin),
        decreases vehicles@.len() - i,
    {
        proof {
            lemma_lane_count_step(vehicles@, origin, i as int);
        }
        if vehicles[i].origin == origin && !vehicles[i].turned {
            n += 1;
        }
        i += 1;
    }
    proof {
        assert(vehicles@.take(vehicles@.len() as int) =~= vehicles@);
    }
    n
}

/// Absolute value of the difference of two coordinates.
pub fn abs_diff(a: i64, b: i64) -> (d: i64)
    requires
        coord_ok(a as int),
        coord_ok(b as int),
    ensures
        d == vstd::math::abs(a - b),
{
    if a >= b {
        a - b
    } else {
        b - a
    }
}

} // verus!
