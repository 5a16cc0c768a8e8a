//! The tick of the greedy model.
//!
//! A tick serves the spawn requests, advances the signal, lets every vehicle
//! that is on the screen and free to go drive once, in the order of the
//! collection, and then removes the vehicles that have left the screen. A
//! vehicle that drives is seen in its new place by the vehicles after it.

use vstd::prelude::*;
use crate::app_config::{AHEAD_CHECK_DISTANCE, AHEAD_CHECK_LATERAL, CAR_SPEED, LANE_CAPACITY};
use crate::entity::traffic_light::TrafficLightSystem;
use crate::entity::vehicle::{
    center_ok, lane_count, lane_occupancy, lemma_lane_count_push, lemma_lane_count_step,
    screen_ok, Vehicle,
};
use crate::geometry::{dist_sq, lemma_axis_step_keeps_distance, point_ok, Point};
use crate::manager::input::{
    frame_outcome, lane_velocity, request_outcome, spawn_point, InputManager, KeyState,
};
use crate::manager::spawner::{all_wf, ids_fresh, lemma_push_keeps_ids_fresh, Spawner};
use crate::types::{Origin, Route};

verus! {

/// No lane holds more than [`LANE_CAPACITY`] vehicles short of their turn.
pub open spec fn lanes_within_capacity(vehicles: Seq<Vehicle>) -> bool {
    &&& lane_count(vehicles, Origin::North) <= LANE_CAPACITY
    &&& lane_count(vehicles, Origin::South) <= LANE_CAPACITY
    &&& lane_count(vehicles, Origin::East) <= LANE_CAPACITY
    &&& lane_count(vehicles, Origin::West) <= LANE_CAPACITY
}

/// What holds of the collection of a simulation between ticks.
pub open spec fn fleet_ok(vehicles: Seq<Vehicle>, next_id: usize) -> bool {
    all_wf(vehicles) && ids_fresh(vehicles, next_id) && lanes_within_capacity(vehicles)
}

/// The centre of a screen.
pub open spec fn center_of(screen: (i64, i64)) -> Point {
    ((screen.0 / 2) as i64, (screen.1 / 2) as i64)
}

/// The collection after the vehicle at `i` has had its turn: it drives if it
/// is on the screen and free to go, and stays as it is otherwise.
pub open spec fn drive(
    vehicles: Seq<Vehicle>,
    i: int,
    active_green: Option<Origin>,
    center: Point,
    screen: (i64, i64),
) -> Seq<Vehicle> {
    if !vehicles[i].out_of_bounds(screen) && vehicles[i].can_advance(
        vehicles,
        active_green,
        center,
    ) {
        vehicles.update(i, vehicles[i].advanced(center))
    } else {
        vehicles
    }
}

/// The collection after the vehicles from `i` on have had their turn, one
/// after the other.
pub open spec fn drive_from(
    vehicles: Seq<Vehicle>,
    i: int,
    active_green: Option<Origin>,
    center: Point,
    screen: (i64, i64),
) -> Seq<Vehicle>
    decreases vehicles.len() - i,
{
    if 0 <= i < vehicles.len() {
        drive_from(drive(vehicles, i, active_green, center, screen), i + 1, active_green, center, screen)
    } else {
        vehicles
    }
}

/// The vehicles that have not left the screen for good.
pub open spec fn on_screen(screen: (i64, i64)) -> spec_fn(Vehicle) -> bool {
    |v: Vehicle| !v.out_of_bounds(screen)
}

/// The collection after the vehicles have driven and those that have left
/// the screen are removed. The vehicles that stay keep their order.
pub open spec fn stepped(
    vehicles: Seq<Vehicle>,
    active_green: Option<Origin>,
    center: Point,
    screen: (i64, i64),
) -> Seq<Vehicle> {
    drive_from(vehicles, 0, active_green, center, screen).filter(on_screen(screen))
}

/// One intersection: its vehicles, its signal and its spawner.
pub struct IntersectionManager {
    vehicles: Vec<Vehicle>,
    traffic_system: TrafficLightSystem,
    center: Point,
    spawner: Spawner,
}

impl IntersectionManager {
    /// The vehicles, in the order in which they take their turns.
    pub closed spec fn fleet(&self) -> Seq<Vehicle> {
        self.vehicles@
    }

    /// The signal.
    pub closed spec fn lights(&self) -> TrafficLightSystem {
        self.traffic_system
    }

    /// The centre of the intersection.
    pub closed spec fn center_point(&self) -> Point {
        self.center
    }

    /// The source of identifiers.
    pub closed spec fn ids(&self) -> Spawner {
        self.spawner
    }

    /// The state of a simulation between ticks: the collection is within the
    /// machine limits, identifiers are fresh and no lane is over capacity.
    pub open spec fn wf(&self) -> bool {
        fleet_ok(self.fleet(), self.ids().next_id) && center_ok(self.center_point())
    }

    /// An empty intersection in the middle of `screen`.
    pub fn new(screen: (i64, i64)) -> (manager: IntersectionManager)
        requires
            screen_ok(screen),
        ensures
            manager.wf(),
            manager.fleet() == Seq::<Vehicle>::empty(),
            manager.lights().active_green is None,
            manager.lights().green_timer == 0,
            manager.center_point() == center_of(screen),
            manager.ids().next_id == 0,
    {
        let manager = IntersectionManager {
            vehicles: Vec::with_capacity(50),
            traffic_system: TrafficLightSystem::new(),
            center: (screen.0 / 2, screen.1 / 2),
            spawner: Spawner::new(),
        };
        proof {
            reveal(Seq::filter);
        }
        manager
    }

    /// The vehicles, for drawing.
    pub fn vehicles(&self) -> (vehicles: &Vec<Vehicle>)
        ensures
            vehicles@ == self.fleet(),
    {
        &self.vehicles
    }

    /// The approach that has green, for drawing.
    pub fn get_active_green(&self) -> (green: Option<Origin>)
        ensures
            green == self.lights().active_green,
    {
        self.traffic_system.get_active_green()
    }

    /// The centre of the intersection, for drawing.
    pub fn center(&self) -> (center: Point)
        ensures
            center == self.center_point(),
    {
        self.center
    }

    /// Occupancy of the lane of `origin`. It never exceeds
    /// [`LANE_CAPACITY`].
    pub fn lane_occupancy(&self, origin: Origin) -> (n: usize)
        requires
            self.wf(),
        ensures
            n == lane_count(self.fleet(), origin),
            n <= LANE_CAPACITY,
    {
        lane_occupancy(self.vehicles.as_slice(), origin)
    }

    /// Serves one spawn request for `origin` with a fixed route and colour
    /// in place of the random ones. The request is dropped when the lane
    /// holds [`LANE_CAPACITY`] vehicles, when a vehicle is within the
    /// clearance radius of the spawn point or when the identifiers are used
    /// up. Returns the identifier of the new vehicle.
    pub fn spawn_request_with(&mut self, origin: Origin, route: Route, color: usize, screen: (i64, i64)) -> (spawned:
        Option<usize>)
        requires
            old(self).wf(),
            screen_ok(screen),
            color < crate::app_config::PALETTE_SIZE,
        ensures
            final(self).wf(),
            final(self).lights() == old(self).lights(),
            final(self).center_point() == old(self).center_point(),
            spawned is Some <==> lane_count(old(self).fleet(), origin) < LANE_CAPACITY && old(
                self,
            ).ids().admits(
                old(self).fleet(),
                spawn_point(origin, old(self).center_point(), screen),
            ),
            spawned is None ==> final(self).fleet() == old(self).fleet() && final(self).ids() == old(
                self,
            ).ids(),
            spawned matches Some(id) ==> {
                &&& id == old(self).ids().next_id
                &&& final(self).ids().next_id == id + 1
                &&& final(self).fleet() == old(self).fleet().push(
                    Vehicle {
                        id,
                        pos: spawn_point(origin, old(self).center_point(), screen),
                        speed: lane_velocity(origin),
                        origin,
                        route,
                        color,
                        turned: false,
                    },
                )
            },
    {
        let occupancy = lane_occupancy(self.vehicles.as_slice(), origin);
        if occupancy >= LANE_CAPACITY {
            return None;
        }
        let pos = InputManager::spawn_position(origin, self.center, screen);
        let speed = InputManager::lane_speed(origin);
        let ghost before = self.vehicles@;
        let ghost ids = self.spawner;
        let spawned = self.spawner.try_spawn_with(
            &mut self.vehicles,
            pos,
            origin,
            speed,
            route,
            color,
        );
        proof {
            if spawned is Some {
                let v = self.vehicles@.last();
                lemma_lane_count_push(before, v, Origin::North);
                lemma_lane_count_push(before, v, Origin::South);
                lemma_lane_count_push(before, v, Origin::East);
                lemma_lane_count_push(before, v, Origin::West);
                assert(v.wf());
            }
        }
        spawned
    }

    /// One tick without input: advances the signal by `dt` milliseconds,
    /// lets the vehicles drive and removes those that have left `screen`.
    pub fn step(&mut self, screen: (i64, i64), dt: u64)
        requires
            old(self).wf(),
            screen_ok(screen),
        ensures
            final(self).wf(),
            final(self).center_point() == center_of(screen),
            final(self).ids() == old(self).ids(),
            final(self).lights() == old(self).lights().ticked(
                dt,
                old(self).fleet(),
                center_of(screen),
            ),
            final(self).fleet() == stepped(
                old(self).fleet(),
                final(self).lights().active_green,
                center_of(screen),
                screen,
            ),
    {
        self.center = (screen.0 / 2, screen.1 / 2);
        let center = self.center;
        self.traffic_system.update(dt, self.vehicles.as_slice(), center);
        let active_green = self.traffic_system.get_active_green();
        let ghost start = self.vehicles@;
        let ghost next_id = self.spawner.next_id;
        let ghost lights = self.traffic_system;
        let ghost spawner = self.spawner;

        let n = self.vehicles.len();
        let mut i: usize = 0;
        while i < n
            invariant
                i <= n,
                n == self.vehicles@.len(),
                self.center == center,
                self.traffic_system == lights,
                self.spawner == spawner,
                screen_ok(screen),
                center_ok(center),
                fleet_ok(self.vehicles@, next_id),
                drive_from(self.vehicles@, i as int, active_green, center, screen) == drive_from(
                    start,
                    0,
                    active_green,
                    center,
                    screen,
                ),
            decreases n - i,
        {
            let ghost before = self.vehicles@;
            let mut v = self.vehicles[i];
            if !v.should_despawn(screen) {
                let safe = v.is_safe_to_move(self.vehicles.as_slice(), active_green, center);
                if safe {
                    v.update(center);
                    self.vehicles.set(i, v);
                    proof {
                        lemma_advanced_keeps(before[i as int], center, screen);
                        lemma_lane_count_update(before, i as int, v, Origin::North);
                        lemma_lane_count_update(before, i as int, v, Origin::South);
                        lemma_lane_count_update(before, i as int, v, Origin::East);
                        lemma_lane_count_update(before, i as int, v, Origin::West);
                    }
                }
            }
            assert(self.vehicles@ == drive(before, i as int, active_green, center, screen));
            i += 1;
        }

        let ghost driven = self.vehicles@;
        let mut kept: Vec<Vehicle> = Vec::new();
        let mut j: usize = 0;
        proof {
            reveal(Seq::filter);
            assert(driven.take(0) =~= Seq::<Vehicle>::empty());
        }
        while j < n
            invariant
                j <= n,
                n == self.vehicles@.len(),
                self.vehicles@ == driven,
                self.center == center,
                self.traffic_system == lights,
                self.spawner == spawner,
                screen_ok(screen),
                fleet_ok(driven, next_id),
                kept@ == driven.take(j as int).filter(on_screen(screen)),
                all_wf(kept@),
                forall|k: int|
                    0 <= k < kept@.len() ==> exists|m: int|
                        0 <= m < j && driven[m] == #[trigger] kept@[k],
                forall|a: int, b: int|
                    0 <= a < b < kept@.len() ==> (#[trigger] kept@[a]).id != (#[trigger] kept@[b]).id,
                lane_count(kept@, Origin::North) <= lane_count(driven.take(j as int), Origin::North),
                lane_count(kept@, Origin::South) <= lane_count(driven.take(j as int), Origin::South),
                lane_count(kept@, Origin::East) <= lane_count(driven.take(j as int), Origin::East),
                lane_count(kept@, Origin::West) <= lane_count(driven.take(j as int), Origin::West),
            decreases n - j,
        {
            let v = self.vehicles[j];
            let ghost kept_before = kept@;
            proof {
                lemma_filter_step(driven, on_screen(screen), j as int);
                lemma_lane_count_step(driven, Origin::North, j as int);
                lemma_lane_count_step(driven, Origin::South, j as int);
                lemma_lane_count_step(driven, Origin::East, j as int);
                lemma_lane_count_step(driven, Origin::West, j as int);
            }
            if !v.should_despawn(screen) {
                kept.push(v);
                proof {
                    lemma_lane_count_push(kept_before, v, Origin::North);
                    lemma_lane_count_push(kept_before, v, Origin::South);
                    lemma_lane_count_push(kept_before, v, Origin::East);
                    lemma_lane_count_push(kept_before, v, Origin::West);
                    assert forall|k: int| 0 <= k < kept@.len() implies exists|m: int|
                        0 <= m < j + 1 && driven[m] == #[trigger] kept@[k] by {
                        if k < kept_before.len() {
                            let m = choose|m: int| 0 <= m < j && driven[m] == kept_before[k];
                            assert(driven[m] == kept@[k]);
                        } else {
                            assert(driven[j as int] == kept@[k]);
                        }
                    }
                    assert forall|a: int, b: int| 0 <= a < b < kept@.len() implies (
                    #[trigger] kept@[a]).id != (#[trigger] kept@[b]).id by {
                        if b == kept_before.len() {
                            let m = choose|m: int| 0 <= m < j && driven[m] == kept_before[a];
                            assert(driven[m].id != driven[j as int].id);
                        } else {
                            assert(kept@[a] == kept_before[a] && kept@[b] == kept_before[b]);
                        }
                    }
                }
            }
            j += 1;
        }
        proof {
            assert(driven.take(n as int) =~= driven);
            assert forall|k: int| 0 <= k < kept@.len() implies (#[trigger] kept@[k]).id
                < next_id by {
                let m = choose|m: int| 0 <= m < n && driven[m] == kept@[k];
                assert(driven[m].id < next_id);
            }
        }
        self.vehicles = kept;
    }

    /// One tick: serves the spawn requests of `keys`, then does what
    /// [`Self::step`] does. Reports whether the user asked to quit.
    ///
    /// The collection `spawned` that the requests leave is the one that the
    /// signal and the vehicles go by.
    pub fn update(&mut self, screen: (i64, i64), dt: u64, keys: &KeyState) -> (quit: bool)
        requires
            old(self).wf(),
            screen_ok(screen),
        ensures
            final(self).wf(),
            quit == keys.escape,
            final(self).center_point() == center_of(screen),
            exists|
                s1: Seq<Vehicle>,
                i1: Spawner,
                s2: Seq<Vehicle>,
                i2: Spawner,
                s3: Seq<Vehicle>,
                i3: Spawner,
                s4: Seq<Vehicle>,
                i4: Spawner,
                random: Option<Origin>,
                spawned: Seq<Vehicle>,
            |
                {
                    &&& #[trigger] frame_outcome(
                        old(self).fleet(),
                        old(self).ids(),
                        *keys,
                        center_of(screen),
                        screen,
                        s1,
                        i1,
                        s2,
                        i2,
                        s3,
                        i3,
                        s4,
                        i4,
                        random,
                        spawned,
                        final(self).ids(),
                    )
                    &&& final(self).lights() == old(self).lights().ticked(
                        dt,
                        spawned,
                        center_of(screen),
                    )
                    &&& final(self).fleet() == stepped(
                        spawned,
                        final(self).lights().active_green,
                        center_of(screen),
                        screen,
                    )
                },
    {
        self.center = (screen.0 / 2, screen.1 / 2);
        let ghost before = self.vehicles@;
        let ghost ids = self.spawner;
        let quit = InputManager::handle_input(
            &mut self.vehicles,
            &mut self.spawner,
            self.center,
            screen,
            keys,
        );
        let ghost spawned = self.vehicles@;
        proof {
            let (s1, i1, s2, i2, s3, i3, s4, i4, random) = choose|
                s1: Seq<Vehicle>,
                i1: Spawner,
                s2: Seq<Vehicle>,
                i2: Spawner,
                s3: Seq<Vehicle>,
                i3: Spawner,
                s4: Seq<Vehicle>,
                i4: Spawner,
                random: Option<Origin>,
            |
                frame_outcome(
                    before,
                    ids,
                    *keys,
                    self.center,
                    screen,
                    s1,
                    i1,
                    s2,
                    i2,
                    s3,
                    i3,
                    s4,
                    i4,
                    random,
                    spawned,
                    self.spawner,
                );
            lemma_frame_keeps_fleet(
                before,
                ids,
                *keys,
                self.center,
                screen,
                s1,
                i1,
                s2,
                i2,
                s3,
                i3,
                s4,
                i4,
                random,
                spawned,
                self.spawner,
            );
        }
        self.step(screen, dt);
        quit
    }
}

/// Filtering one element more keeps it exactly when it passes.
pub proof fn lemma_filter_step<A>(s: Seq<A>, pred: spec_fn(A) -> bool, i: int)
    requires
        0 <= i < s.len(),
    ensures
        s.take(i + 1).filter(pred) == if pred(s[i]) {
            s.take(i).filter(pred).push(s[i])
        } else {
            s.take(i).filter(pred)
        },
{
    reveal(Seq::filter);
    assert(s.take(i + 1).drop_last() =~= s.take(i));
}

/// Replacing a vehicle by one of the same approach that has turned if the
/// first had does not raise the occupancy of any lane.
pub proof fn lemma_lane_count_update(vehicles: Seq<Vehicle>, i: int, v: Vehicle, origin: Origin)
    requires
        0 <= i < vehicles.len(),
        v.origin == vehicles[i].origin,
        vehicles[i].turned ==> v.turned,
    ensures
        lane_count(vehicles.update(i, v), origin) <= lane_count(vehicles, origin),
    decreases vehicles.len(),
{
    reveal(Seq::filter);
    let after = vehicles.update(i, v);
    if i == vehicles.len() - 1 {
        assert(after.drop_last() =~= vehicles.drop_last());
    } else {
        assert(after.drop_last() =~= vehicles.drop_last().update(i, v));
        lemma_lane_count_update(vehicles.drop_last(), i, v, origin);
    }
}

/// A vehicle that drives stays in its approach, keeps its identifier and
/// does not take back its turn decision; from a place on an accepted screen
/// it stays within the machine limits.
pub proof fn lemma_advanced_keeps(v: Vehicle, center: Point, screen: (i64, i64))
    requires
        v.wf(),
        screen_ok(screen),
        !v.out_of_bounds(screen),
    ensures
        v.advanced(center).wf(),
        v.advanced(center).id == v.id,
        v.advanced(center).origin == v.origin,
        v.turned ==> v.advanced(center).turned,
{
}

/// A vehicle that is held at a red signal, or blocked by a vehicle of the
/// collection, stays exactly as it is when its turn comes.
pub proof fn lemma_held_vehicle_stays(
    vehicles: Seq<Vehicle>,
    i: int,
    j: int,
    active_green: Option<Origin>,
    center: Point,
    screen: (i64, i64),
)
    requires
        0 <= i < vehicles.len(),
        0 <= j < vehicles.len(),
        vehicles[i].held_at_red(active_green, center) || vehicles[i].blocked_by(vehicles[j]),
    ensures
        drive(vehicles, i, active_green, center, screen) == vehicles,
{
}

/// A vehicle that is held at a red signal stays exactly as it is while the
/// vehicles from `k` on have their turns, wherever in the collection it
/// stands and whatever the others do.
pub proof fn lemma_red_light_holds_from(
    vehicles: Seq<Vehicle>,
    i: int,
    k: int,
    active_green: Option<Origin>,
    center: Point,
    screen: (i64, i64),
)
    requires
        0 <= i < vehicles.len(),
        0 <= k,
        vehicles[i].held_at_red(active_green, center),
    ensures
        drive_from(vehicles, k, active_green, center, screen).len() == vehicles.len(),
        drive_from(vehicles, k, active_green, center, screen)[i] == vehicles[i],
    decreases vehicles.len() - k,
{
    if k < vehicles.len() {
        let next = drive(vehicles, k, active_green, center, screen);
        assert(next[i] == vehicles[i]);
        lemma_red_light_holds_from(next, i, k + 1, active_green, center, screen);
    }
}

/// A vehicle that is held at a red signal stays exactly as it is through a
/// whole tick, and is still in the collection after it if it is on the
/// screen.
pub proof fn lemma_red_light_holds_through_tick(
    vehicles: Seq<Vehicle>,
    i: int,
    active_green: Option<Origin>,
    center: Point,
    screen: (i64, i64),
)
    requires
        0 <= i < vehicles.len(),
        vehicles[i].held_at_red(active_green, center),
    ensures
        drive_from(vehicles, 0, active_green, center, screen)[i] == vehicles[i],
        !vehicles[i].out_of_bounds(screen) ==> stepped(
            vehicles,
            active_green,
            center,
            screen,
        ).contains(vehicles[i]),
{
    lemma_red_light_holds_from(vehicles, i, 0, active_green, center, screen);
    if !vehicles[i].out_of_bounds(screen) {
        drive_from(vehicles, 0, active_green, center, screen).lemma_filter_contains(
            on_screen(screen),
            i,
        );
    }
}

/// A vehicle in its lane does not tunnel through the distance check.
///
/// When a vehicle that drives with the velocity of its lane is free to go
/// although another vehicle is ahead of it, then after its step the other
/// is still ahead of it, and no closer than [`AHEAD_CHECK_DISTANCE`] less
/// one step of [`CAR_SPEED`]. If the other was a step and more beyond
/// [`AHEAD_CHECK_DISTANCE`], it stays at least [`AHEAD_CHECK_DISTANCE`] away.
pub proof fn lemma_no_tunneling(
    t: Vehicle,
    vehicles: Seq<Vehicle>,
    j: int,
    active_green: Option<Origin>,
    center: Point,
)
    requires
        0 <= j < vehicles.len(),
        vehicles[j].id != t.id,
        t.wf(),
        point_ok(vehicles[j].pos),
        t.speed == lane_velocity(t.origin),
        t.sees_ahead(vehicles[j].pos),
        t.can_advance(vehicles, active_green, center),
    ensures
        (Vehicle { pos: t.advanced(center).pos, ..t }).sees_ahead(vehicles[j].pos),
        dist_sq(t.advanced(center).pos, vehicles[j].pos) >= (AHEAD_CHECK_DISTANCE - CAR_SPEED) * (
        AHEAD_CHECK_DISTANCE - CAR_SPEED),
        dist_sq(t.pos, vehicles[j].pos) >= (AHEAD_CHECK_DISTANCE + CAR_SPEED) * (AHEAD_CHECK_DISTANCE
            + CAR_SPEED) ==> dist_sq(t.advanced(center).pos, vehicles[j].pos)
            >= AHEAD_CHECK_DISTANCE * AHEAD_CHECK_DISTANCE,
{
    let l = vehicles[j];
    let after = t.advanced(center).pos;
    let s = CAR_SPEED as int;
    let r = AHEAD_CHECK_DISTANCE as int;
    assert(!t.blocked_by(l));
    assert(dist_sq(t.pos, l.pos) >= r * r);
    lemma_axis_step_keeps_distance(t.pos, after, l.pos, s, r);
    if dist_sq(t.pos, l.pos) >= (r + s) * (r + s) {
        assert(r + s - s == r);
        lemma_axis_step_keeps_distance(t.pos, after, l.pos, s, r + s);
    }
    // The other vehicle is more than a step ahead along the lane: across
    // the lane it is less than the width of the corridor away.
    let along = if t.origin.heading().0 != 0 { l.pos.0 - t.pos.0 } else { l.pos.1 - t.pos.1 };
    let across = if t.origin.heading().0 != 0 { l.pos.1 - t.pos.1 } else { l.pos.0 - t.pos.0 };
    assert(along * along + across * across == dist_sq(t.pos, l.pos)) by (nonlinear_arith)
        requires
            dist_sq(t.pos, l.pos) == (t.pos.0 - l.pos.0) * (t.pos.0 - l.pos.0) + (t.pos.1 - l.pos.1)
                * (t.pos.1 - l.pos.1),
            (along == l.pos.0 - t.pos.0 && across == l.pos.1 - t.pos.1) || (along == l.pos.1
                - t.pos.1 && across == l.pos.0 - t.pos.0),
    ;
    let w = AHEAD_CHECK_LATERAL as int;
    assert(w * w + s * s < r * r);
    assert(along > s || along < -s) by (nonlinear_arith)
        requires
            along * along + across * across >= r * r,
            -w < across < w,
            w * w + s * s < r * r,
            0 <= s,
    ;
}

/// One request changes the occupancy of a lane by the vehicle it appends,
/// if it appends one to that lane, and keeps the collection within the
/// machine limits and the identifiers fresh.
pub proof fn lemma_request_effect(
    before: Seq<Vehicle>,
    ids: Spawner,
    origin: Origin,
    wanted: bool,
    occupancy: nat,
    center: Point,
    screen: (i64, i64),
    after: Seq<Vehicle>,
    ids_after: Spawner,
    lane: Origin,
)
    requires
        request_outcome(before, ids, origin, wanted, occupancy, center, screen, after, ids_after),
        center_ok(center),
        screen_ok(screen),
    ensures
        after == before || (after.len() == before.len() + 1 && after.drop_last() == before
            && after.last().pos == spawn_point(origin, center, screen) && occupancy
            < LANE_CAPACITY),
        lane_count(after, lane) == lane_count(before, lane) + (if after != before && origin == lane {
            1nat
        } else {
            0nat
        }),
        all_wf(before) ==> all_wf(after),
        ids_fresh(before, ids.next_id) ==> ids_fresh(after, ids_after.next_id),
        ids_after.next_id >= ids.next_id,
{
    if after != before {
        let v = after.last();
        assert(after == before.push(v));
        assert(after.drop_last() =~= before);
        lemma_lane_count_push(before, v, lane);
        assert(v.wf());
        if ids_fresh(before, ids.next_id) {
            lemma_push_keeps_ids_fresh(before, ids.next_id, v);
        }
    }
}

/// A request for a spot that a vehicle of the collection occupies changes
/// nothing.
pub proof fn lemma_request_on_occupied_spot(
    before: Seq<Vehicle>,
    ids: Spawner,
    origin: Origin,
    wanted: bool,
    occupancy: nat,
    center: Point,
    screen: (i64, i64),
    after: Seq<Vehicle>,
    ids_after: Spawner,
    k: int,
)
    requires
        request_outcome(before, ids, origin, wanted, occupancy, center, screen, after, ids_after),
        0 <= k < before.len(),
        before[k].pos == spawn_point(origin, center, screen),
    ensures
        after == before,
{
    let p = spawn_point(origin, center, screen);
    assert(crate::geometry::dist_sq(before[k].pos, p) == 0);
}

/// A frame of input leaves no lane above [`LANE_CAPACITY`] that was not
/// above it before, keeps the collection within the machine limits and the
/// identifiers fresh.
pub proof fn lemma_frame_keeps_fleet(
    before: Seq<Vehicle>,
    ids: Spawner,
    keys: KeyState,
    center: Point,
    screen: (i64, i64),
    s1: Seq<Vehicle>,
    i1: Spawner,
    s2: Seq<Vehicle>,
    i2: Spawner,
    s3: Seq<Vehicle>,
    i3: Spawner,
    s4: Seq<Vehicle>,
    i4: Spawner,
    random: Option<Origin>,
    after: Seq<Vehicle>,
    ids_after: Spawner,
)
    requires
        frame_outcome(
            before,
            ids,
            keys,
            center,
            screen,
            s1,
            i1,
            s2,
            i2,
            s3,
            i3,
            s4,
            i4,
            random,
            after,
            ids_after,
        ),
        center_ok(center),
        screen_ok(screen),
        fleet_ok(before, ids.next_id),
    ensures
        fleet_ok(after, ids_after.next_id),
{
    lemma_lane_respects_capacity(before, ids, keys, center, screen, s1, i1, s2, i2, s3, i3, s4, i4, random, after, ids_after, Origin::North);
    lemma_lane_respects_capacity(before, ids, keys, center, screen, s1, i1, s2, i2, s3, i3, s4, i4, random, after, ids_after, Origin::South);
    lemma_lane_respects_capacity(before, ids, keys, center, screen, s1, i1, s2, i2, s3, i3, s4, i4, random, after, ids_after, Origin::East);
    lemma_lane_respects_capacity(before, ids, keys, center, screen, s1, i1, s2, i2, s3, i3, s4, i4, random, after, ids_after, Origin::West);
    // Request by request, the vehicles stay within the machine limits and
    // the identifiers fresh.
    let lane = Origin::North;
    lemma_request_effect(before, ids, Origin::South, keys.up, lane_count(before, Origin::South), center, screen, s1, i1, lane);
    lemma_request_effect(s1, i1, Origin::North, keys.down, lane_count(before, Origin::North), center, screen, s2, i2, lane);
    lemma_request_effect(s2, i2, Origin::East, keys.right, lane_count(before, Origin::East), center, screen, s3, i3, lane);
    lemma_request_effect(s3, i3, Origin::West, keys.left, lane_count(before, Origin::West), center, screen, s4, i4, lane);
    if let Some(origin) = random {
        lemma_request_effect(s4, i4, origin, true, lane_count(before, origin), center, screen, after, ids_after, lane);
    }
}

/// A frame of input raises the occupancy of a lane by one at most, and only
/// of a lane that was below [`LANE_CAPACITY`].
pub proof fn lemma_lane_respects_capacity(
    before: Seq<Vehicle>,
    ids: Spawner,
    keys: KeyState,
    center: Point,
    screen: (i64, i64),
    s1: Seq<Vehicle>,
    i1: Spawner,
    s2: Seq<Vehicle>,
    i2: Spawner,
    s3: Seq<Vehicle>,
    i3: Spawner,
    s4: Seq<Vehicle>,
    i4: Spawner,
    random: Option<Origin>,
    after: Seq<Vehicle>,
    ids_after: Spawner,
    lane: Origin,
)
    requires
        frame_outcome(
            before,
            ids,
            keys,
            center,
            screen,
            s1,
            i1,
            s2,
            i2,
            s3,
            i3,
            s4,
            i4,
            random,
            after,
            ids_after,
        ),
        center_ok(center),
        screen_ok(screen),
    ensures
        lane_count(after, lane) == lane_count(before, lane) || (lane_count(after, lane)
            == lane_count(before, lane) + 1 && lane_count(before, lane) < LANE_CAPACITY),
{
    lemma_request_effect(before, ids, Origin::South, keys.up, lane_count(before, Origin::South), center, screen, s1, i1, lane);
    lemma_request_effect(s1, i1, Origin::North, keys.down, lane_count(before, Origin::North), center, screen, s2, i2, lane);
    lemma_request_effect(s2, i2, Origin::East, keys.right, lane_count(before, Origin::East), center, screen, s3, i3, lane);
    lemma_request_effect(s3, i3, Origin::West, keys.left, lane_count(before, Origin::West), center, screen, s4, i4, lane);
    if let Some(origin) = random {
        lemma_request_effect(s4, i4, origin, true, lane_count(before, origin), center, screen, after, ids_after, lane);
        if origin == lane && after != s4 {
            // The arrow key of this lane cannot have spawned as well: its
            // vehicle would occupy the spawn point.
            if lane == Origin::South && s1 != before {
                let k = before.len() as int;
                assert(s4[k] == s1.last());
                lemma_request_on_occupied_spot(s4, i4, origin, true, lane_count(before, origin), center, screen, after, ids_after, k);
            }
            if lane == Origin::North && s2 != s1 {
                let k = s1.len() as int;
                assert(s4[k] == s2.last());
                lemma_request_on_occupied_spot(s4, i4, origin, true, lane_count(before, origin), center, screen, after, ids_after, k);
            }
            if lane == Origin::East && s3 != s2 {
                let k = s2.len() as int;
                assert(s4[k] == s3.last());
                lemma_request_on_occupied_spot(s4, i4, origin, true, lane_count(before, origin), center, screen, after, ids_after, k);
            }
            if lane == Origin::West && s4 != s3 {
                let k = s3.len() as int;
                assert(s4[k] == s4.last());
                lemma_request_on_occupied_spot(s4, i4, origin, true, lane_count(before, origin), center, screen, after, ids_after, k);
            }
        }
    }
}

} // verus!
