//! Spawning and the tick of the phased model.
//!
//! A spawn request for a direction goes through when the last vehicle of
//! that direction was spawned at least [`SPAWN_COOLDOWN`] ago and every
//! vehicle of that direction has driven more than [`SPAWN_CLEARANCE`] from
//! the spawn point. A tick updates the signal, lets every vehicle live
//! through one tick in the order of the collection, each with the nearest
//! vehicle ahead of it in its lane as the collection then stands, and
//! removes the vehicles that are done.

use std::collections::HashMap;
use vstd::prelude::*;
use crate::geometry::{dist_sq, Point, PX};
use crate::traffic_light::TrafficLightSystem;
use crate::vehicle::{
    lemma_no_tunneling, Direction, Route, Vehicle, VehicleState, SAFE_DIST, VEHICLE_SPEED,
};

verus! {

/// Least time between two spawns in one direction, in milliseconds.
pub const SPAWN_COOLDOWN: u64 = 800;

/// Distance from its spawn point that every vehicle of a direction must
/// have exceeded before the next is spawned.
pub const SPAWN_CLEARANCE: i64 = 60 * PX;

/// Every vehicle of the collection is within the machine limits of the
/// model.
pub open spec fn all_wf(vehicles: Seq<Vehicle>) -> bool {
    forall|j: int| 0 <= j < vehicles.len() ==> (#[trigger] vehicles[j]).wf()
}

/// The direction that the tick count `tick` selects: the directions take
/// turns in the order north, south, east, west.
pub open spec fn direction_of_tick(tick: u32) -> Direction {
    if tick % 4 == 0 {
        Direction::North
    } else if tick % 4 == 1 {
        Direction::South
    } else if tick % 4 == 2 {
        Direction::East
    } else {
        Direction::West
    }
}

/// Every vehicle that entered in `dir` is more than [`SPAWN_CLEARANCE`] from
/// the spawn point of `dir`.
pub open spec fn entry_clear(vehicles: Seq<Vehicle>, dir: Direction) -> bool {
    forall|j: int|
        0 <= j < vehicles.len() && (#[trigger] vehicles[j]).direction == dir
            ==> vehicles[j].spawn_dist_sq() > SPAWN_CLEARANCE * SPAWN_CLEARANCE
}

/// No vehicle was spawned in `dir` yet, or the last one at least
/// [`SPAWN_COOLDOWN`] before `now`. A clock that reads less than at the last
/// spawn counts as no time passed.
pub open spec fn cooled_down(last_spawn: Map<u8, u64>, dir: Direction, now: u64) -> bool {
    last_spawn.contains_key(dir.code()) ==> now - last_spawn[dir.code()] >= SPAWN_COOLDOWN
}

/// The vehicle at `j` drives in the lane of the vehicle at `idx` and is
/// further from the spawn point.
pub open spec fn is_ahead_of(vehicles: Seq<Vehicle>, idx: int, j: int) -> bool {
    &&& 0 <= j < vehicles.len()
    &&& j != idx
    &&& vehicles[j].direction == vehicles[idx].direction
    &&& vehicles[j].spawn_dist_sq() > vehicles[idx].spawn_dist_sq()
}

/// Among the first `n` vehicles, the index of the one ahead of the vehicle
/// at `idx` that is nearest to the spawn point, and of several such the
/// first.
pub open spec fn nearest_ahead(vehicles: Seq<Vehicle>, idx: int, n: int) -> Option<int>
    decreases n,
{
    if n <= 0 {
        None
    } else {
        let found = nearest_ahead(vehicles, idx, n - 1);
        let nearer = match found {
            Some(p) => vehicles[n - 1].spawn_dist_sq() < vehicles[p].spawn_dist_sq(),
            None => true,
        };
        if is_ahead_of(vehicles, idx, n - 1) && nearer {
            Some(n - 1)
        } else {
            found
        }
    }
}

/// The position of the vehicle next ahead of the vehicle at `idx`.
pub open spec fn ahead_of(vehicles: Seq<Vehicle>, idx: int) -> Option<Point> {
    match nearest_ahead(vehicles, idx, vehicles.len() as int) {
        Some(j) => Some(vehicles[j].pos()),
        None => None,
    }
}

/// The collection after the vehicle at `i` has lived through a tick.
pub open spec fn advance(vehicles: Seq<Vehicle>, i: int, lights: TrafficLightSystem) -> Seq<
    Vehicle,
> {
    vehicles.update(
        i,
        vehicles[i].step(lights.grants(vehicles[i].direction), ahead_of(vehicles, i)),
    )
}

/// The collection after the vehicles from `i` on have lived through a tick,
/// one after the other.
pub open spec fn advance_from(vehicles: Seq<Vehicle>, i: int, lights: TrafficLightSystem) -> Seq<
    Vehicle,
>
    decreases vehicles.len() - i,
{
    if 0 <= i < vehicles.len() {
        advance_from(advance(vehicles, i, lights), i + 1, lights)
    } else {
        vehicles
    }
}

/// The vehicles that are not done.
pub open spec fn alive() -> spec_fn(Vehicle) -> bool {
    |v: Vehicle| v.state != VehicleState::Done
}

/// The collection after a tick under `lights`: every vehicle has lived
/// through it and those that are done are removed. The others keep their
/// order.
pub open spec fn stepped(vehicles: Seq<Vehicle>, lights: TrafficLightSystem) -> Seq<Vehicle> {
    advance_from(vehicles, 0, lights).filter(alive())
}

/// What [`nearest_ahead`] finds: nothing, when no vehicle among the first
/// `n` is ahead; else a vehicle ahead that is no further from the spawn
/// point than any other, and nearer than those before it in the
/// collection.
pub proof fn lemma_nearest_ahead(vehicles: Seq<Vehicle>, idx: int, n: int)
    requires
        0 <= n <= vehicles.len(),
    ensures
        match nearest_ahead(vehicles, idx, n) {
            None => forall|k: int| 0 <= k < n ==> !is_ahead_of(vehicles, idx, k),
            Some(j) => {
                &&& 0 <= j < n
                &&& is_ahead_of(vehicles, idx, j)
                &&& forall|k: int|
                    0 <= k < n && is_ahead_of(vehicles, idx, k) ==> vehicles[j].spawn_dist_sq()
                        <= (#[trigger] vehicles[k]).spawn_dist_sq()
                &&& forall|k: int|
                    0 <= k < j && is_ahead_of(vehicles, idx, k) ==> vehicles[j].spawn_dist_sq() < (
                    #[trigger] vehicles[k]).spawn_dist_sq()
            },
        },
    decreases n,
{
    if n > 0 {
        lemma_nearest_ahead(vehicles, idx, n - 1);
    }
}

/// An approaching vehicle does not tunnel through the distance check when
/// its turn comes in a tick. With another vehicle next ahead of it: if that
/// one is closer than [`SAFE_DIST`], the vehicle stands still; if not, the
/// vehicle comes no closer to it than [`SAFE_DIST`] less one step of
/// [`VEHICLE_SPEED`]; and if it was a step and more beyond [`SAFE_DIST`], it
/// stays at least [`SAFE_DIST`] away.
pub proof fn lemma_advance_keeps_distance(
    vehicles: Seq<Vehicle>,
    t: int,
    lights: TrafficLightSystem,
    p: Point,
)
    requires
        0 <= t < vehicles.len(),
        all_wf(vehicles),
        vehicles[t].state == VehicleState::Approaching,
        ahead_of(vehicles, t) == Some(p),
    ensures
        ({
            let before = vehicles[t].pos();
            let after = advance(vehicles, t, lights)[t].pos();
            &&& dist_sq(before, p) < SAFE_DIST * SAFE_DIST ==> after == before
            &&& dist_sq(before, p) >= SAFE_DIST * SAFE_DIST ==> dist_sq(after, p) >= (SAFE_DIST
                - VEHICLE_SPEED) * (SAFE_DIST - VEHICLE_SPEED)
            &&& dist_sq(before, p) >= (SAFE_DIST + VEHICLE_SPEED) * (SAFE_DIST + VEHICLE_SPEED)
                ==> dist_sq(after, p) >= SAFE_DIST * SAFE_DIST
        }),
{
    lemma_nearest_ahead(vehicles, t, vehicles.len() as int);
    let j = nearest_ahead(vehicles, t, vehicles.len() as int).unwrap();
    assert(vehicles[j].wf());
    lemma_no_tunneling(vehicles[t], lights.grants(vehicles[t].direction), p);
}

/// An approaching vehicle at its stop line without green stands where it is
/// and waits, while the vehicles from `k` on live through a tick: if its
/// turn is still to come it is marked as waiting and nothing else of it
/// changes; if its turn is past it stays exactly as it is.
pub proof fn lemma_red_light_holds_from(
    vehicles: Seq<Vehicle>,
    i: int,
    k: int,
    lights: TrafficLightSystem,
)
    requires
        0 <= i < vehicles.len(),
        0 <= k,
        vehicles[i].state == VehicleState::Approaching,
        vehicles[i].at_stop(),
        !lights.grants(vehicles[i].direction),
    ensures
        advance_from(vehicles, k, lights).len() == vehicles.len(),
        advance_from(vehicles, k, lights)[i] == (if k <= i {
            Vehicle { waiting: true, ..vehicles[i] }
        } else {
            vehicles[i]
        }),
    decreases vehicles.len() - k,
{
    if k < vehicles.len() {
        let next = advance(vehicles, k, lights);
        if k == i {
            assert(next[i] == Vehicle { waiting: true, ..vehicles[i] });
        } else {
            assert(next[i] == vehicles[i]);
        }
        lemma_red_light_holds_from(next, i, k + 1, lights);
    }
}

/// An approaching vehicle at its stop line without green is, after a whole
/// tick, still in the collection, where it was, approaching and waiting.
pub proof fn lemma_red_light_holds_through_tick(
    vehicles: Seq<Vehicle>,
    i: int,
    lights: TrafficLightSystem,
)
    requires
        0 <= i < vehicles.len(),
        vehicles[i].state == VehicleState::Approaching,
        vehicles[i].at_stop(),
        !lights.grants(vehicles[i].direction),
    ensures
        advance_from(vehicles, 0, lights)[i] == (Vehicle { waiting: true, ..vehicles[i] }),
        stepped(vehicles, lights).contains(Vehicle { waiting: true, ..vehicles[i] }),
{
    lemma_red_light_holds_from(vehicles, i, 0, lights);
    advance_from(vehicles, 0, lights).lemma_filter_contains(alive(), i);
}

/// One intersection of the phased model.
pub struct Simulation {
    pub vehicles: Vec<Vehicle>,
    pub lights: TrafficLightSystem,
    /// Time of the last spawn in each direction, under the code of the
    /// direction.
    pub last_spawn: HashMap<u8, u64>,
}

impl Simulation {
    /// The state of a simulation between ticks: every vehicle is within the
    /// machine limits of the model.
    pub open spec fn wf(&self) -> bool {
        all_wf(self.vehicles@)
    }

    /// Whether every vehicle is within the machine limits of the model. For
    /// callers that cannot show it otherwise.
    pub fn is_wf(&self) -> (ok: bool)
        ensures
            ok == self.wf(),
    {
        let mut i: usize = 0;
        while i < self.vehicles.len()
            invariant
                i <= self.vehicles@.len(),
                forall|j: int| 0 <= j < i ==> (#[trigger] self.vehicles@[j]).wf(),
            decreases self.vehicles@.len() - i,
        {
            if !self.vehicles[i].is_wf() {
                return false;
            }
            i += 1;
        }
        true
    }

    /// An empty intersection whose signal starts at the time `now`.
    pub fn new(now: u64) -> (sim: Simulation)
        ensures
            sim.wf(),
            sim.vehicles@ == Seq::<Vehicle>::empty(),
            sim.lights == TrafficLightSystem::new_spec(now),
            sim.last_spawn@ == Map::<u8, u64>::empty(),
    {
        Simulation {
            vehicles: Vec::new(),
            lights: TrafficLightSystem::new(now),
            last_spawn: HashMap::new(),
        }
    }

    /// The direction picked by a tick count.
    pub fn random_direction(tick: u32) -> (dir: Direction)
        ensures
            dir == direction_of_tick(tick),
    {
        match tick % 4 {
            0 => Direction::North,
            1 => Direction::South,
            2 => Direction::East,
            _ => Direction::West,
        }
    }

    /// Whether the lane of `dir` is free near its spawn point.
    pub fn lane_entry_clear(vehicles: &[Vehicle], dir: Direction) -> (clear: bool)
        requires
            all_wf(vehicles@),
        ensures
            clear == entry_clear(vehicles@, dir),
    {
        let limit: u64 = (SPAWN_CLEARANCE * SPAWN_CLEARANCE) as u64;
        let mut i: usize = 0;
        while i < vehicles.len()
            invariant
                i <= vehicles@.len(),
                all_wf(vehicles@),
                limit == SPAWN_CLEARANCE * SPAWN_CLEARANCE,
                forall|j: int|
                    0 <= j < i && (#[trigger] vehicles@[j]).direction == dir
                        ==> vehicles@[j].spawn_dist_sq() > SPAWN_CLEARANCE * SPAWN_CLEARANCE,
            decreases vehicles@.len() - i,
        {
            let v = &vehicles[i];
            if v.direction == dir && v.distance_from_spawn_squared() <= limit {
                return false;
            }
            i += 1;
        }
        true
    }

    /// Spawns a vehicle in `dir` if the cooldown of the direction is over
    /// and the lane is free near the spawn point. The route is the one that
    /// `tick` picks. Reports whether a vehicle was spawned.
    ///
    /// A rejected request changes nothing.
    pub fn spawn_request(&mut self, dir: Direction, now: u64, tick: u32) -> (spawned: bool)
        requires
            old(self).wf(),
        ensures
            final(self).wf(),
            final(self).lights == old(self).lights,
            spawned == (cooled_down(old(self).last_spawn@, dir, now) && entry_clear(
                old(self).vehicles@,
                dir,
            )),
            !spawned ==> final(self).vehicles@ == old(self).vehicles@ && final(self).last_spawn@
                == old(self).last_spawn@,
            spawned ==> final(self).vehicles@ == old(self).vehicles@.push(
                Vehicle::fresh(dir, Route::of_tick(tick)),
            ) && final(self).last_spawn@ == old(self).last_spawn@.insert(dir.code(), now),
    {
        let key: u8 = dir.as_u8();
        let can_spawn = match self.last_spawn.get(&key) {
            Some(t) => now.saturating_sub(*t) >= SPAWN_COOLDOWN,
            None => true,
        };
        if can_spawn {
            let safe = Self::lane_entry_clear(self.vehicles.as_slice(), dir);
            if safe {
                let route = Route::random(tick);
                self.vehicles.push(Vehicle::new(dir, route));
                self.last_spawn.insert(key, now);
                return true;
            }
        }
        false
    }

    /// One tick at the time `now`.
    pub fn step(&mut self, now: u64)
        requires
            old(self).wf(),
        ensures
            final(self).wf(),
            final(self).lights == old(self).lights.updated(old(self).vehicles@, now),
            final(self).vehicles@ == stepped(old(self).vehicles@, final(self).lights),
            final(self).last_spawn@ == old(self).last_spawn@,
    {
        self.lights.update(self.vehicles.as_slice(), now);
        let lights = self.lights;
        let ghost start = self.vehicles@;
        let ghost last_spawn = self.last_spawn@;

        let n = self.vehicles.len();
        let mut i: usize = 0;
        while i < n
            invariant
                i <= n,
                n == self.vehicles@.len(),
                self.lights == lights,
                self.last_spawn@ == last_spawn,
                all_wf(self.vehicles@),
                advance_from(self.vehicles@, i as int, lights) == advance_from(start, 0, lights),
            decreases n - i,
        {
            let ghost before = self.vehicles@;
            let ahead = find_vehicle_ahead(self.vehicles.as_slice(), i);
            let mut v = self.vehicles[i];
            v.update(&lights, ahead);
            self.vehicles.set(i, v);
            assert(self.vehicles@ == advance(before, i as int, lights));
            i += 1;
        }

        let ghost driven = self.vehicles@;
        let mut kept: Vec<Vehicle> = Vec::new();
        let mut j: usize = 0;
        proof {
            reveal(Seq::filter);
            assert(driven.take(0) =~= Seq::<Vehicle>::empty());
        }
        while j < n
            invariant
                j <= n,
                n == self.vehicles@.len(),
                self.vehicles@ == driven,
                self.lights == lights,
                self.last_spawn@ == last_spawn,
                all_wf(driven),
                all_wf(kept@),
                kept@ == driven.take(j as int).filter(alive()),
            decreases n - j,
        {
            let v = self.vehicles[j];
            proof {
                reveal(Seq::filter);
                assert(driven.take(j + 1).drop_last() =~= driven.take(j as int));
            }
            if v.is_alive() {
                kept.push(v);
            }
            j += 1;
        }
        proof {
            assert(driven.take(n as int) =~= driven);
        }
        self.vehicles = kept;
    }
}

/// The position of the vehicle next ahead of the vehicle at `idx`: of the
/// other vehicles in its lane that are further from the spawn point, the
/// one that is nearest to it, and of several such the first.
pub fn find_vehicle_ahead(vehicles: &[Vehicle], idx: usize) -> (ahead: Option<Point>)
    requires
        idx < vehicles@.len(),
        all_wf(vehicles@),
    ensures
        ahead == ahead_of(vehicles@, idx as int),
        ahead is None <==> forall|k: int|
            0 <= k < vehicles@.len() ==> !is_ahead_of(vehicles@, idx as int, k),
        ahead matches Some(p) ==> crate::geometry::point_ok(p) && exists|j: int|
            {
                &&& #[trigger] is_ahead_of(vehicles@, idx as int, j)
                &&& p == vehicles@[j].pos()
                &&& forall|k: int|
                    is_ahead_of(vehicles@, idx as int, k) ==> vehicles@[j].spawn_dist_sq() <= (
                    #[trigger] vehicles@[k]).spawn_dist_sq()
            },
{
    let my_dist = vehicles[idx].distance_from_spawn_squared();
    let mut closest: Option<(i64, i64, u64)> = None;
    let ghost mut found: Option<int> = None;

    let mut i: usize = 0;
    while i < vehicles.len()
        invariant
            i <= vehicles@.len(),
            idx < vehicles@.len(),
            all_wf(vehicles@),
            my_dist == vehicles@[idx as int].spawn_dist_sq(),
            found == nearest_ahead(vehicles@, idx as int, i as int),
            match found {
                Some(j) => {
                    &&& 0 <= j < i
                    &&& closest matches Some(c)
                    &&& c.0 == vehicles@[j].x
                    &&& c.1 == vehicles@[j].y
                    &&& c.2 == vehicles@[j].spawn_dist_sq()
                },
                None => closest is None,
            },
        decreases vehicles@.len() - i,
    {
        let other = &vehicles[i];
        if i != idx && other.direction == vehicles[idx].direction {
            let other_dist = other.distance_from_spawn_squared();
            if other_dist > my_dist {
                let nearer = match closest {
                    Some(c) => other_dist < c.2,
                    None => true,
                };
                if nearer {
                    closest = Some((other.x, other.y, other_dist));
                    proof {
                        found = Some(i as int);
                    }
                }
            }
        }
        i += 1;
    }
    proof {
        lemma_nearest_ahead(vehicles@, idx as int, vehicles@.len() as int);
    }
    match closest {
        Some(c) => Some((c.0, c.1)),
        None => None,
    }
}

} // verus!
