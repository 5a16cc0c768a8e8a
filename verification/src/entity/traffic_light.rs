//! The signal of the greedy model: one approach at a time has green, and
//! green goes to the approach with the most vehicles queued.
//!
//! The signal is reconsidered when no approach has green yet, or when the
//! central zone of the intersection is empty and the green has lasted for
//! [`MIN_GREEN_TIME`]. A lane that always holds fewer vehicles than another
//! can therefore wait without bound; the policy does not guard against that.

use vstd::prelude::*;
use crate::app_config::{CENTER_HALF, MIN_GREEN_TIME};
use crate::entity::vehicle::{abs_diff, all_in_plane, lane_count, lane_occupancy, Vehicle};
use crate::geometry::{point_ok, Point};
use crate::types::Origin;

verus! {

/// The vehicle is inside the central zone: less than [`CENTER_HALF`] from
/// the centre along both axes.
pub open spec fn in_center_zone(v: Vehicle, center: Point) -> bool {
    vstd::math::abs(v.pos.0 - center.0) < CENTER_HALF && vstd::math::abs(v.pos.1 - center.1)
        < CENTER_HALF
}

/// No vehicle is inside the central zone.
pub open spec fn center_empty(vehicles: Seq<Vehicle>, center: Point) -> bool {
    forall|j: int| 0 <= j < vehicles.len() ==> !in_center_zone(#[trigger] vehicles[j], center)
}

/// The lane to serve, given the occupancy of the four lanes: the first of
/// north, south, east, west that holds as many vehicles as any other; none
/// when all lanes are empty.
pub open spec fn busiest(north: nat, south: nat, east: nat, west: nat) -> Option<Origin> {
    if north == 0 && south == 0 && east == 0 && west == 0 {
        None
    } else if north >= south && north >= east && north >= west {
        Some(Origin::North)
    } else if south >= east && south >= west {
        Some(Origin::South)
    } else if east >= west {
        Some(Origin::East)
    } else {
        Some(Origin::West)
    }
}

/// The lane to serve among `vehicles`.
pub open spec fn busiest_lane(vehicles: Seq<Vehicle>) -> Option<Origin> {
    busiest(
        lane_count(vehicles, Origin::North),
        lane_count(vehicles, Origin::South),
        lane_count(vehicles, Origin::East),
        lane_count(vehicles, Origin::West),
    )
}

#[derive(Debug, Clone, Copy)]
pub struct TrafficLightSystem {
    /// The approach that has green, if any has had it yet.
    pub active_green: Option<Origin>,
    /// Milliseconds since green last changed hands, capped at `u64::MAX`.
    pub green_timer: u64,
}

impl TrafficLightSystem {
    /// The approach `origin` has green.
    pub open spec fn is_green(self, origin: Origin) -> bool {
        self.active_green == Some(origin)
    }

    /// The approach that has green after a fresh decision: the busiest lane;
    /// with all lanes empty, the approach that has green already, and north
    /// when none has had it yet.
    pub open spec fn next_green(self, vehicles: Seq<Vehicle>) -> Option<Origin> {
        match busiest_lane(vehicles) {
            Some(lane) => Some(lane),
            None => if self.active_green is None {
                Some(Origin::North)
            } else {
                self.active_green
            },
        }
    }

    /// The signal after a fresh decision: when green changes hands, which
    /// includes the first grant, the timer restarts; when it does not, the
    /// signal stays as it is.
    pub open spec fn decided(self, vehicles: Seq<Vehicle>) -> TrafficLightSystem {
        if self.next_green(vehicles) != self.active_green {
            TrafficLightSystem { active_green: self.next_green(vehicles), green_timer: 0 }
        } else {
            self
        }
    }

    /// The timer after `dt` more milliseconds.
    pub open spec fn timer_after(self, dt: u64) -> u64 {
        if self.green_timer + dt > u64::MAX {
            u64::MAX
        } else {
            (self.green_timer + dt) as u64
        }
    }

    /// Whether the signal is reconsidered in a tick of `dt` milliseconds.
    pub open spec fn reconsiders(self, dt: u64, vehicles: Seq<Vehicle>, center: Point) -> bool {
        self.active_green is None || (center_empty(vehicles, center) && self.timer_after(dt)
            >= MIN_GREEN_TIME)
    }

    /// The signal after a tick of `dt` milliseconds.
    pub open spec fn ticked(self, dt: u64, vehicles: Seq<Vehicle>, center: Point) -> TrafficLightSystem {
        let aged = TrafficLightSystem { green_timer: self.timer_after(dt), ..self };
        if self.reconsiders(dt, vehicles, center) {
            aged.decided(vehicles)
        } else {
            aged
        }
    }

    /// A signal that has not given green to any approach yet.
    pub fn new() -> (lights: TrafficLightSystem)
        ensures
            lights.active_green is None,
            lights.green_timer == 0,
    {
        TrafficLightSystem { active_green: None, green_timer: 0 }
    }

    /// Advances the signal by a tick that lasted `dt` milliseconds.
    ///
    /// Green leaves an approach only after [`MIN_GREEN_TIME`], and only
    /// while the central zone is empty. The timer is the time since green
    /// last changed hands: it restarts when green changes hands, the first
    /// grant included, and runs on by `dt` when it does not.
    pub fn update(&mut self, dt: u64, vehicles: &[Vehicle], center: Point)
        requires
            point_ok(center),
            all_in_plane(vehicles@),
        ensures
            *final(self) == old(self).ticked(dt, vehicles@, center),
            old(self).active_green is Some && final(self).active_green != old(self).active_green
                ==> old(self).green_timer + dt >= MIN_GREEN_TIME && center_empty(vehicles@, center),
            final(self).active_green is Some,
            final(self).active_green != old(self).active_green ==> final(self).green_timer == 0,
            final(self).active_green == old(self).active_green ==> final(self).green_timer == old(
                self,
            ).timer_after(dt),
    {
        self.green_timer = self.green_timer.saturating_add(dt);

        let mut center_is_empty = true;
        let mut i: usize = 0;
        while i < vehicles.len()
            invariant
                i <= vehicles@.len(),
                point_ok(center),
                all_in_plane(vehicles@),
                center_is_empty <==> forall|j: int|
                    0 <= j < i ==> !in_center_zone(#[trigger] vehicles@[j], center),
            decreases vehicles@.len() - i,
        {
            let v = &vehicles[i];
            if abs_diff(v.pos.0, center.0) < CENTER_HALF && abs_diff(v.pos.1, center.1)
                < CENTER_HALF {
                center_is_empty = false;
            }
            i += 1;
        }

        let should_switch = match self.active_green {
            None => true,
            Some(_) => center_is_empty && self.green_timer >= MIN_GREEN_TIME,
        };

        if should_switch {
            self.decide_next_green(vehicles);
        }
    }

    /// Gives green to the busiest lane. The timer restarts when green
    /// changes hands, the first grant included.
    pub fn decide_next_green(&mut self, vehicles: &[Vehicle])
        ensures
            *final(self) == old(self).decided(vehicles@),
            final(self).active_green is Some,
            final(self).active_green != old(self).active_green ==> final(self).green_timer == 0,
            final(self).active_green == old(self).active_green ==> final(self).green_timer == old(
                self,
            ).green_timer,
    {
        let n_c = lane_occupancy(vehicles, Origin::North);
        let s_c = lane_occupancy(vehicles, Origin::South);
        let e_c = lane_occupancy(vehicles, Origin::East);
        let w_c = lane_occupancy(vehicles, Origin::West);

        let mut best_lane: Option<Origin> = None;
        let mut best_score: usize = 0;
        if n_c > best_score {
            best_score = n_c;
            best_lane = Some(Origin::North);
        }
        if s_c > best_score {
            best_score = s_c;
            best_lane = Some(Origin::South);
        }
        if e_c > best_score {
            best_score = e_c;
            best_lane = Some(Origin::East);
        }
        if w_c > best_score {
            best_lane = Some(Origin::West);
        }

        match best_lane {
            Some(lane) => {
                let same = match self.active_green {
                    Some(current) => current == lane,
                    None => false,
                };
                if !same {
                    self.active_green = Some(lane);
                    self.green_timer = 0;
                }
            },
            None => {
                if self.active_green.is_none() {
                    self.active_green = Some(Origin::North);
                    self.green_timer = 0;
                }
            },
        }
    }

    /// The approach that has green.
    pub fn get_active_green(&self) -> (green: Option<Origin>)
        ensures
            green == self.active_green,
    {
        self.active_green
    }
}

/// At most one approach has green at a time.
pub proof fn lemma_single_green(lights: TrafficLightSystem, a: Origin, b: Origin)
    requires
        lights.is_green(a),
        lights.is_green(b),
    ensures
        a == b,
{
}

/// The lane that [`busiest`] picks holds at least one vehicle and at least
/// as many as every other lane, and strictly more than the lanes that come
/// before it in the order north, south, east, west.
pub proof fn lemma_busiest_is_fullest(north: nat, south: nat, east: nat, west: nat)
    ensures
        match busiest(north, south, east, west) {
            None => north == 0 && south == 0 && east == 0 && west == 0,
            Some(Origin::North) => north > 0 && north >= south && north >= east && north >= west,
            Some(Origin::South) => south > north && south >= east && south >= west,
            Some(Origin::East) => east > north && east > south && east >= west,
            Some(Origin::West) => west > north && west > south && west > east,
        },
{
}

} // verus!
