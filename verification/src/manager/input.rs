//! Spawn requests from the keyboard.
//!
//! The arrow keys request a vehicle from one approach each, `R` requests
//! one from an approach drawn at random, and `Esc` asks to quit. A request
//! is dropped when the lane held [`LANE_CAPACITY`] vehicles at the start of
//! the frame, or when the spawner rejects it.

use vstd::prelude::*;
use crate::app_config::{
    CAR_SPEED, LANE_CAPACITY, PALETTE_SIZE, SPAWN_DISTANCE_CHECK, SPAWN_MARGIN, SPAWN_OFFSET,
};
use crate::entity::vehicle::{
    center_ok, lane_count, lane_occupancy, screen_ok, Vehicle,
};
use crate::geometry::{dist_sq, lemma_far_on_one_axis, point_ok, Point};
use crate::manager::spawner::{all_wf, gen_range, ids_fresh, Spawner};
use crate::types::Origin;

verus! {

/// The keys that went down in a frame.
#[derive(Debug, Clone, Copy, PartialEq, Eq)]
pub struct KeyState {
    /// Arrow up: a vehicle from the south.
    pub up: bool,
    /// Arrow down: a vehicle from the north.
    pub down: bool,
    /// Arrow right: an eastbound vehicle.
    pub right: bool,
    /// Arrow left: a westbound vehicle.
    pub left: bool,
    /// `R`: a vehicle from an approach drawn at random.
    pub random: bool,
    /// `Esc`: quit.
    pub escape: bool,
}

/// Where the vehicles of `origin` enter: [`SPAWN_MARGIN`] beyond the edge of
/// the screen, [`SPAWN_OFFSET`] to the side of the centre line of the road.
pub open spec fn spawn_point(origin: Origin, center: Point, screen: (i64, i64)) -> Point {
    match origin {
        Origin::South => ((center.0 + SPAWN_OFFSET) as i64, (screen.1 + SPAWN_MARGIN) as i64),
        Origin::North => ((center.0 - SPAWN_OFFSET) as i64, (-SPAWN_MARGIN) as i64),
        Origin::East => ((-SPAWN_MARGIN) as i64, (center.1 + SPAWN_OFFSET) as i64),
        Origin::West => ((screen.0 + SPAWN_MARGIN) as i64, (center.1 - SPAWN_OFFSET) as i64),
    }
}

/// Velocity with which the vehicles of `origin` enter: [`CAR_SPEED`] along
/// the heading of the approach.
pub open spec fn lane_velocity(origin: Origin) -> (i64, i64) {
    let h = origin.heading();
    ((CAR_SPEED * h.0) as i64, (CAR_SPEED * h.1) as i64)
}

/// The approach that the draw `roll` stands for.
pub open spec fn origin_of_roll(roll: usize) -> Option<Origin> {
    if roll == 0 {
        Some(Origin::North)
    } else if roll == 1 {
        Some(Origin::South)
    } else if roll == 2 {
        Some(Origin::East)
    } else if roll == 3 {
        Some(Origin::West)
    } else {
        None
    }
}

/// `after` is `before` with one more vehicle: a fresh one of `origin`, with
/// the identifier `id`, at the spawn point of its approach.
pub open spec fn spawned_into(
    before: Seq<Vehicle>,
    id: usize,
    origin: Origin,
    center: Point,
    screen: (i64, i64),
    after: Seq<Vehicle>,
) -> bool {
    let v = after.last();
    &&& after == before.push(v)
    &&& v.id == id
    &&& v.pos == spawn_point(origin, center, screen)
    &&& v.speed == lane_velocity(origin)
    &&& v.origin == origin
    &&& v.color < PALETTE_SIZE
    &&& !v.turned
}

/// What one request does to the collection and the spawner. A request that
/// is `wanted`, for a lane that held fewer than [`LANE_CAPACITY`] vehicles
/// at the start of the frame, and that the spawner admits, appends a fresh
/// vehicle; any other changes nothing.
pub open spec fn request_outcome(
    before: Seq<Vehicle>,
    ids: Spawner,
    origin: Origin,
    wanted: bool,
    occupancy: nat,
    center: Point,
    screen: (i64, i64),
    after: Seq<Vehicle>,
    ids_after: Spawner,
) -> bool {
    if wanted && occupancy < LANE_CAPACITY && ids.admits(
        before,
        spawn_point(origin, center, screen),
    ) {
        spawned_into(before, ids.next_id, origin, center, screen, after) && ids_after.next_id
            == ids.next_id + 1
    } else {
        after == before && ids_after == ids
    }
}

/// What a frame of input does: the requests of the four arrow keys are
/// served in the order up, down, right, left, leaving the collections `s1`
/// to `s4` and the spawners `i1` to `i4`; then the random request, if `R`
/// went down, for the approach `random`. Every request goes by the occupancy
/// that its lane had in `before`.
pub open spec fn frame_outcome(
    before: Seq<Vehicle>,
    ids: Spawner,
    keys: KeyState,
    center: Point,
    screen: (i64, i64),
    s1: Seq<Vehicle>,
    i1: Spawner,
    s2: Seq<Vehicle>,
    i2: Spawner,
    s3: Seq<Vehicle>,
    i3: Spawner,
    s4: Seq<Vehicle>,
    i4: Spawner,
    random: Option<Origin>,
    after: Seq<Vehicle>,
    ids_after: Spawner,
) -> bool {
    &&& request_outcome(
        before,
        ids,
        Origin::South,
        keys.up,
        lane_count(before, Origin::South),
        center,
        screen,
        s1,
        i1,
    )
    &&& request_outcome(
        s1,
        i1,
        Origin::North,
        keys.down,
        lane_count(before, Origin::North),
        center,
        screen,
        s2,
        i2,
    )
    &&& request_outcome(
        s2,
        i2,
        Origin::East,
        keys.right,
        lane_count(before, Origin::East),
        center,
        screen,
        s3,
        i3,
    )
    &&& request_outcome(
        s3,
        i3,
        Origin::West,
        keys.left,
        lane_count(before, Origin::West),
        center,
        screen,
        s4,
        i4,
    )
    &&& random is Some <==> keys.random
    &&& match random {
        Some(origin) => request_outcome(
            s4,
            i4,
            origin,
            true,
            lane_count(before, origin),
            center,
            screen,
            after,
            ids_after,
        ),
        None => after == s4 && ids_after == i4,
    }
}

/// The spawn points of two lanes are clear of one another: a vehicle at
/// one does not stand in the way of a spawn at the other, wherever on the
/// screen the centre lies.
pub proof fn lemma_spawn_points_apart(a: Origin, b: Origin, center: Point, screen: (i64, i64))
    requires
        a != b,
        screen_ok(screen),
        0 <= center.0 <= screen.0,
        0 <= center.1 <= screen.1,
    ensures
        dist_sq(spawn_point(a, center, screen), spawn_point(b, center, screen))
            >= SPAWN_DISTANCE_CHECK * SPAWN_DISTANCE_CHECK,
{
    lemma_far_on_one_axis(
        spawn_point(a, center, screen),
        spawn_point(b, center, screen),
        SPAWN_DISTANCE_CHECK as int,
    );
}

pub struct InputManager;

impl InputManager {
    /// The spawn point of `origin`.
    pub fn spawn_position(origin: Origin, center: Point, screen: (i64, i64)) -> (p: Point)
        requires
            center_ok(center),
            screen_ok(screen),
        ensures
            p == spawn_point(origin, center, screen),
            point_ok(p),
    {
        match origin {
            Origin::South => (center.0 + SPAWN_OFFSET, screen.1 + SPAWN_MARGIN),
            Origin::North => (center.0 - SPAWN_OFFSET, -SPAWN_MARGIN),
            Origin::East => (-SPAWN_MARGIN, center.1 + SPAWN_OFFSET),
            Origin::West => (screen.0 + SPAWN_MARGIN, center.1 - SPAWN_OFFSET),
        }
    }

    /// The velocity with which vehicles of `origin` enter.
    pub fn lane_speed(origin: Origin) -> (s: (i64, i64))
        ensures
            s == lane_velocity(origin),
    {
        match origin {
            Origin::South => (0, -CAR_SPEED),
            Origin::North => (0, CAR_SPEED),
            Origin::East => (CAR_SPEED, 0),
            Origin::West => (-CAR_SPEED, 0),
        }
    }

    /// The approach that a draw stands for: `0` north, `1` south, `2` east,
    /// `3` west, anything else none.
    pub fn origin_from_roll(roll: usize) -> (origin: Option<Origin>)
        ensures
            origin == origin_of_roll(roll),
    {
        match roll {
            0 => Some(Origin::North),
            1 => Some(Origin::South),
            2 => Some(Origin::East),
            3 => Some(Origin::West),
            _ => None,
        }
    }

    /// Serves one spawn request for `origin`, whose lane held `occupancy`
    /// vehicles at the start of the frame. Returns the identifier of the
    /// vehicle that was injected, if one was.
    pub fn spawn_request(
        vehicles: &mut Vec<Vehicle>,
        spawner: &mut Spawner,
        origin: Origin,
        occupancy: usize,
        center: Point,
        screen: (i64, i64),
    ) -> (spawned: Option<usize>)
        requires
            center_ok(center),
            screen_ok(screen),
            all_wf(old(vehicles)@),
        ensures
            request_outcome(
                old(vehicles)@,
                *old(spawner),
                origin,
                true,
                occupancy as nat,
                center,
                screen,
                final(vehicles)@,
                *final(spawner),
            ),
            spawned is Some <==> final(vehicles)@.len() == old(vehicles)@.len() + 1,
            spawned matches Some(id) ==> id == old(spawner).next_id,
            all_wf(final(vehicles)@),
            ids_fresh(old(vehicles)@, old(spawner).next_id) ==> ids_fresh(
                final(vehicles)@,
                final(spawner).next_id,
            ),
    {
        if occupancy < LANE_CAPACITY {
            let pos = Self::spawn_position(origin, center, screen);
            let speed = Self::lane_speed(origin);
            spawner.try_spawn(vehicles, pos, origin, speed)
        } else {
            None
        }
    }

    /// Serves the spawn requests of a frame and reports whether the user
    /// asked to quit.
    pub fn handle_input(
        vehicles: &mut Vec<Vehicle>,
        spawner: &mut Spawner,
        center: Point,
        screen: (i64, i64),
        keys: &KeyState,
    ) -> (quit: bool)
        requires
            center_ok(center),
            screen_ok(screen),
            all_wf(old(vehicles)@),
        ensures
            quit == keys.escape,
            all_wf(final(vehicles)@),
            ids_fresh(old(vehicles)@, old(spawner).next_id) ==> ids_fresh(
                final(vehicles)@,
                final(spawner).next_id,
            ),
            exists|
                s1: Seq<Vehicle>,
                i1: Spawner,
                s2: Seq<Vehicle>,
                i2: Spawner,
                s3: Seq<Vehicle>,
                i3: Spawner,
                s4: Seq<Vehicle>,
                i4: Spawner,
                random: Option<Origin>,
            |
                frame_outcome(
                    old(vehicles)@,
                    *old(spawner),
                    *keys,
                    center,
                    screen,
                    s1,
                    i1,
                    s2,
                    i2,
                    s3,
                    i3,
                    s4,
                    i4,
                    random,
                    final(vehicles)@,
                    *final(spawner),
                ),
    {
        let n_c = lane_occupancy(vehicles.as_slice(), Origin::North);
        let s_c = lane_occupancy(vehicles.as_slice(), Origin::South);
        let e_c = lane_occupancy(vehicles.as_slice(), Origin::East);
        let w_c = lane_occupancy(vehicles.as_slice(), Origin::West);

        if keys.up {
            Self::spawn_request(vehicles, spawner, Origin::South, s_c, center, screen);
        }
        let ghost s1 = vehicles@;
        let ghost i1 = *spawner;
        if keys.down {
            Self::spawn_request(vehicles, spawner, Origin::North, n_c, center, screen);
        }
        let ghost s2 = vehicles@;
        let ghost i2 = *spawner;
        if keys.right {
            Self::spawn_request(vehicles, spawner, Origin::East, e_c, center, screen);
        }
        let ghost s3 = vehicles@;
        let ghost i3 = *spawner;
        if keys.left {
            Self::spawn_request(vehicles, spawner, Origin::West, w_c, center, screen);
        }
        let ghost s4 = vehicles@;
        let ghost i4 = *spawner;

        let ghost mut random: Option<Origin> = None;
        if keys.random {
            let drawn = Self::origin_from_roll(gen_range(0, 4));
            proof {
                random = drawn;
            }
            match drawn {
                Some(Origin::North) => {
                    Self::spawn_request(vehicles, spawner, Origin::North, n_c, center, screen);
                },
                Some(Origin::South) => {
                    Self::spawn_request(vehicles, spawner, Origin::South, s_c, center, screen);
                },
                Some(Origin::East) => {
                    Self::spawn_request(vehicles, spawner, Origin::East, e_c, center, screen);
                },
                Some(Origin::West) => {
                    Self::spawn_request(vehicles, spawner, Origin::West, w_c, center, screen);
                },
                None => {},
            }
        }
        proof {
            assert(frame_outcome(
                old(vehicles)@,
                *old(spawner),
                *keys,
                center,
                screen,
                s1,
                i1,
                s2,
                i2,
                s3,
                i3,
                s4,
                i4,
                random,
                vehicles@,
                *spawner,
            ));
        }
        keys.escape
    }
}

} // verus!
