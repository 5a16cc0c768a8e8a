//! Tunable constants of the greedy model.
//!
//! Lengths are in units ([`PX`] to the pixel), speeds in units per tick and
//! times in milliseconds. The proofs of the model are checked against the
//! values written here: after a change, verification says whether the
//! model's guarantees still hold.

use vstd::prelude::*;
use crate::geometry::PX;

verus! {

/// Shortest time a lane keeps its green before the signal may move on.
pub const MIN_GREEN_TIME: u64 = 500;

/// Distance a vehicle covers in one tick (two and a half pixels).
pub const CAR_SPEED: i64 = 5120;

/// Side of the square footprint of a vehicle.
pub const CAR_SIZE: i64 = 24 * PX;

/// Length of lane that a queued vehicle occupies.
pub const VEHICLE_LENGTH: i64 = CAR_SIZE;

/// Free space kept between two queued vehicles.
pub const SAFETY_GAP: i64 = 30 * PX;

/// Length of an approach lane.
pub const LANE_LENGTH: i64 = 400 * PX;

/// Most vehicles of one approach that may be short of their turn at once:
/// as many as fit the lane, each with its safety gap.
pub const LANE_CAPACITY: usize = 7;

/// Distance from the centre of the intersection to the edge where the stop
/// band ends, and past the centre to where a vehicle going straight counts
/// as through.
pub const LANE_OFFSET: i64 = 45 * PX;

/// Depth of the stop band in front of the intersection.
pub const STOP_BAND: i64 = 36 * PX;

/// Half the side of the central zone that must be empty before the signal
/// moves on.
pub const CENTER_HALF: i64 = 60 * PX;

/// How far beyond the screen a vehicle drives before it is removed.
pub const DESPAWN_OFFSET: i64 = 120 * PX;

/// Radius around a spawn point that must be free of vehicles.
pub const SPAWN_DISTANCE_CHECK: i64 = 40 * PX;

/// Radius within which a vehicle ahead holds up the one behind it.
pub const AHEAD_CHECK_DISTANCE: i64 = 50 * PX;

/// Half the width of the corridor in which another vehicle counts as ahead.
pub const AHEAD_CHECK_LATERAL: i64 = 18 * PX;

/// Speed along an axis that a vehicle must exceed to count as driving along
/// it (a tenth of a pixel, rounded down to whole units).
pub const SPEED_EPSILON: i64 = 204;

/// Distance of the spawn points from the centre line of their road.
pub const SPAWN_OFFSET: i64 = 25 * PX;

/// Distance of the spawn points beyond the edge of the screen.
pub const SPAWN_MARGIN: i64 = 20 * PX;

/// Number of body colours a vehicle can have.
pub const PALETTE_SIZE: usize = 6;

/// Largest speed along an axis that the arithmetic of the model accepts.
pub const SPEED_MAX: i64 = 0x10_0000;

/// Largest width or height of the screen that the model accepts.
pub const SCREEN_MAX: i64 = 0x2000_0000;

/// [`LANE_CAPACITY`] is the number of whole vehicle slots in a lane, and
/// [`CAR_SPEED`] is two and a half pixels.
pub proof fn lemma_derived_constants()
    ensures
        LANE_CAPACITY == (LANE_LENGTH as int) / (VEHICLE_LENGTH + SAFETY_GAP),
        2 * CAR_SPEED == 5 * PX,
{
}

/// The configuration is sound. Speed, capacity and the minimum green time
/// are positive; a vehicle drives faster than the speed below which it
/// counts as at rest, and within the limit of the arithmetic; a step is
/// shorter than the reach of the distance check and than the stop band, so
/// that no vehicle steps over either; the corridor of the distance check is
/// narrower than its reach, by so much that a vehicle which that check lets
/// go is more than a step behind the one ahead; and the spawn points lie further from the centre
/// line of their road, and from the corner of the screen, than the
/// clearance radius needs to keep the lanes from blocking one another.
///
/// A change of a constant that breaks one of these is reported here, before
/// any simulation runs.
pub proof fn lemma_config_sound()
    ensures
        0 < CAR_SPEED <= SPEED_MAX,
        SPEED_EPSILON < CAR_SPEED,
        0 < LANE_CAPACITY,
        0 < MIN_GREEN_TIME,
        0 < PALETTE_SIZE,
        CAR_SPEED < AHEAD_CHECK_DISTANCE,
        CAR_SPEED < STOP_BAND,
        AHEAD_CHECK_LATERAL < AHEAD_CHECK_DISTANCE,
        AHEAD_CHECK_LATERAL * AHEAD_CHECK_LATERAL + CAR_SPEED * CAR_SPEED < AHEAD_CHECK_DISTANCE
            * AHEAD_CHECK_DISTANCE,
        0 < SPAWN_DISTANCE_CHECK,
        SPAWN_DISTANCE_CHECK <= 2 * SPAWN_OFFSET,
        SPAWN_DISTANCE_CHECK <= SPAWN_OFFSET + SPAWN_MARGIN,
        0 < LANE_OFFSET < CENTER_HALF + STOP_BAND,
        SCREEN_MAX + DESPAWN_OFFSET + SPEED_MAX <= crate::geometry::COORD_MAX,
{
}

} // verus!
