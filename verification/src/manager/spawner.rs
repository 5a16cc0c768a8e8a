//! Injection of vehicles into the shared collection.
//!
//! A vehicle is injected only where no other vehicle is within
//! [`SPAWN_DISTANCE_CHECK`] of the requested position. Its route and colour
//! are drawn at random; its identifier is the next of a counter that the
//! spawner owns.

use vstd::prelude::*;
use crate::app_config::{PALETTE_SIZE, SPAWN_DISTANCE_CHECK};
use crate::entity::vehicle::{all_in_plane, Vehicle};
use crate::geometry::{dist_sq, distance_squared, point_ok, Point};
use crate::types::{Origin, Route};

verus! {

/// Draws an integer from the generator that `macroquad` shares.
///
/// Specifies `macroquad::rand::gen_range`, which is `quad_rand::gen_range`.
/// For integers it scales a fraction in `[0, 1)` to the width of the range,
/// adds `low` and drops the fractional part, all in `f64`; for bounds as
/// small as those admitted here that arithmetic is exact, so the result is
/// at least `low` and below `high`, as the crate documents. Which number of
/// the range comes out depends on the state of the generator, and nothing is
/// claimed of it.
#[verifier::external_body]
pub(crate) fn gen_range(low: usize, high: usize) -> (r: usize)
    requires
        low < high <= 0x10_0000,
    ensures
        low <= r < high,
{
    macroquad::rand::gen_range(low, high)
}

/// No vehicle is closer than [`SPAWN_DISTANCE_CHECK`] to `pos`.
pub open spec fn spot_clear(vehicles: Seq<Vehicle>, pos: Point) -> bool {
    forall|j: int|
        0 <= j < vehicles.len() ==> dist_sq((#[trigger] vehicles[j]).pos, pos)
            >= SPAWN_DISTANCE_CHECK * SPAWN_DISTANCE_CHECK
}

/// The route that the draw `roll` stands for.
pub open spec fn route_of_roll(roll: usize) -> Route {
    if roll == 0 {
        Route::Right
    } else if roll == 1 {
        Route::Left
    } else {
        Route::Straight
    }
}

/// Every vehicle of the collection is within the machine limits of the
/// model.
pub open spec fn all_wf(vehicles: Seq<Vehicle>) -> bool {
    forall|j: int| 0 <= j < vehicles.len() ==> (#[trigger] vehicles[j]).wf()
}

/// Every identifier in the collection is below `next_id`, and no two
/// vehicles share one.
pub open spec fn ids_fresh(vehicles: Seq<Vehicle>, next_id: usize) -> bool {
    &&& forall|j: int| 0 <= j < vehicles.len() ==> (#[trigger] vehicles[j]).id < next_id
    &&& forall|i: int, j: int|
        0 <= i < j < vehicles.len() ==> (#[trigger] vehicles[i]).id != (#[trigger] vehicles[j]).id
}

/// A collection with fresh identifiers keeps them fresh when a vehicle with
/// the next identifier joins it and the counter moves on.
pub proof fn lemma_push_keeps_ids_fresh(vehicles: Seq<Vehicle>, next_id: usize, v: Vehicle)
    requires
        ids_fresh(vehicles, next_id),
        v.id == next_id,
        next_id < usize::MAX,
    ensures
        ids_fresh(vehicles.push(v), (next_id + 1) as usize),
{
    let after = vehicles.push(v);
    assert forall|i: int, j: int| 0 <= i < j < after.len() implies (#[trigger] after[i]).id != (
    #[trigger] after[j]).id by {
        if j < vehicles.len() {
            assert(after[i] == vehicles[i] && after[j] == vehicles[j]);
        } else {
            assert(after[i] == vehicles[i]);
        }
    }
    assert forall|j: int| 0 <= j < after.len() implies (#[trigger] after[j]).id < next_id + 1 by {
        if j < vehicles.len() {
            assert(after[j] == vehicles[j]);
        }
    }
}

/// Source of vehicle identifiers.
#[derive(Debug, Clone, Copy)]
pub struct Spawner {
    /// The identifier that the next vehicle gets. Every identifier handed
    /// out so far is below it.
    pub next_id: usize,
}

impl Spawner {
    /// A spawn at `pos` goes through: the spot is clear and an identifier is
    /// left.
    pub open spec fn admits(self, vehicles: Seq<Vehicle>, pos: Point) -> bool {
        spot_clear(vehicles, pos) && self.next_id < usize::MAX
    }

    /// A spawner that has handed out no identifier.
    pub fn new() -> (spawner: Spawner)
        ensures
            spawner.next_id == 0,
    {
        Spawner { next_id: 0 }
    }

    /// Whether no vehicle is within the clearance radius of `pos`.
    pub fn is_clear(vehicles: &Vec<Vehicle>, pos: Point) -> (clear: bool)
        requires
            point_ok(pos),
            all_in_plane(vehicles@),
        ensures
            clear == spot_clear(vehicles@, pos),
    {
        let radius: u64 = (SPAWN_DISTANCE_CHECK * SPAWN_DISTANCE_CHECK) as u64;
        let mut i: usize = 0;
        while i < vehicles.len()
            invariant
                i <= vehicles@.len(),
                point_ok(pos),
                all_in_plane(vehicles@),
                radius == SPAWN_DISTANCE_CHECK * SPAWN_DISTANCE_CHECK,
                forall|j: int|
                    0 <= j < i ==> dist_sq((#[trigger] vehicles@[j]).pos, pos)
                        >= SPAWN_DISTANCE_CHECK * SPAWN_DISTANCE_CHECK,
            decreases vehicles@.len() - i,
        {
            if distance_squared(vehicles[i].pos, pos) < radius {
                return false;
            }
            i += 1;
        }
        true
    }

    /// Injects a vehicle at `pos` with a random route and colour, unless
    /// another vehicle is within the clearance radius or the identifiers
    /// are used up. Returns the identifier of the new vehicle.
    ///
    /// A rejected request changes nothing.
    pub fn try_spawn(
        &mut self,
        vehicles: &mut Vec<Vehicle>,
        pos: Point,
        origin: Origin,
        speed: (i64, i64),
    ) -> (spawned: Option<usize>)
        requires
            point_ok(pos),
            all_in_plane(old(vehicles)@),
        ensures
            spawned is Some <==> old(self).admits(old(vehicles)@, pos),
            spawned is None ==> final(vehicles)@ == old(vehicles)@ && *final(self) == *old(self),
            spawned matches Some(id) ==> {
                let v = final(vehicles)@.last();
                &&& id == old(self).next_id
                &&& final(self).next_id == id + 1
                &&& final(vehicles)@ == old(vehicles)@.push(v)
                &&& v.id == id
                &&& v.pos == pos
                &&& v.speed == speed
                &&& v.origin == origin
                &&& v.color < PALETTE_SIZE
                &&& !v.turned
            },
            ids_fresh(old(vehicles)@, old(self).next_id) ==> ids_fresh(
                final(vehicles)@,
                final(self).next_id,
            ),
    {
        if Self::is_clear(vehicles, pos) {
            let (route, color) = Self::get_random_attributes();
            self.try_spawn_with(vehicles, pos, origin, speed, route, color)
        } else {
            None
        }
    }

    /// Injects a vehicle with the given route and colour at `pos`, unless
    /// another vehicle is within the clearance radius or the identifiers
    /// are used up. Returns the identifier of the new vehicle.
    ///
    /// A rejected request changes nothing.
    pub fn try_spawn_with(
        &mut self,
        vehicles: &mut Vec<Vehicle>,
        pos: Point,
        origin: Origin,
        speed: (i64, i64),
        route: Route,
        color: usize,
    ) -> (spawned: Option<usize>)
        requires
            point_ok(pos),
            all_in_plane(old(vehicles)@),
        ensures
            spawned is Some <==> old(self).admits(old(vehicles)@, pos),
            spawned is None ==> final(vehicles)@ == old(vehicles)@ && *final(self) == *old(self),
            spawned matches Some(id) ==> {
                &&& id == old(self).next_id
                &&& final(self).next_id == id + 1
                &&& final(vehicles)@ == old(vehicles)@.push(
                    Vehicle { id, pos, speed, origin, route, color, turned: false },
                )
            },
            ids_fresh(old(vehicles)@, old(self).next_id) ==> ids_fresh(
                final(vehicles)@,
                final(self).next_id,
            ),
    {
        if self.next_id == usize::MAX || !Self::is_clear(vehicles, pos) {
            return None;
        }
        let id = self.next_id;
        let v = Vehicle::new(id, pos, speed, origin, route, color);
        proof {
            if ids_fresh(vehicles@, id) {
                lemma_push_keeps_ids_fresh(vehicles@, id, v);
            }
        }
        vehicles.push(v);
        self.next_id = id + 1;
        Some(id)
    }

    /// The route that a draw stands for: `0` a right turn, `1` a left turn,
    /// anything else straight on.
    pub fn route_from_roll(roll: usize) -> (route: Route)
        ensures
            route == route_of_roll(roll),
    {
        match roll {
            0 => Route::Right,
            1 => Route::Left,
            _ => Route::Straight,
        }
    }

    /// Draws a route and a colour of the palette.
    pub fn get_random_attributes() -> (attributes: (Route, usize))
        ensures
            attributes.1 < PALETTE_SIZE,
    {
        let route = Self::route_from_roll(gen_range(0, 3));
        let color_idx = gen_range(0, PALETTE_SIZE);
        (route, color_idx)
    }
}

/// A spawn request within the clearance radius of a vehicle is rejected.
pub proof fn lemma_crowded_spot_rejected(spawner: Spawner, vehicles: Seq<Vehicle>, pos: Point, j: int)
    requires
        0 <= j < vehicles.len(),
        dist_sq(vehicles[j].pos, pos) < SPAWN_DISTANCE_CHECK * SPAWN_DISTANCE_CHECK,
    ensures
        !spawner.admits(vehicles, pos),
{
}

/// A spot that a vehicle occupies is not clear: after a spawn at `pos`, a
/// second request for the same position is rejected.
pub proof fn lemma_occupied_spot_rejected(spawner: Spawner, vehicles: Seq<Vehicle>, v: Vehicle)
    ensures
        !spawner.admits(vehicles.push(v), v.pos),
{
    let after = vehicles.push(v);
    assert(after[vehicles.len() as int] == v);
    assert(dist_sq(v.pos, v.pos) == 0);
    assert((SPAWN_DISTANCE_CHECK as int) * (SPAWN_DISTANCE_CHECK as int) > 0) by (nonlinear_arith)
        requires
            SPAWN_DISTANCE_CHECK > 0,
    ;
}

} // verus!
