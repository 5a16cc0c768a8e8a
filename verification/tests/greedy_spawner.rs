use road_intersection::app_config::{CAR_SPEED, LANE_CAPACITY, PALETTE_SIZE, SPAWN_DISTANCE_CHECK, SPAWN_MARGIN, SPAWN_OFFSET};
use road_intersection::entity::vehicle::{lane_occupancy, Vehicle};
use road_intersection::geometry::PX;
use road_intersection::manager::input::{InputManager, KeyState};
use road_intersection::manager::spawner::Spawner;
use road_intersection::types::{Origin, Route};

const CENTER: (i64, i64) = (400 * PX, 300 * PX);
const SCREEN: (i64, i64) = (800 * PX, 600 * PX);

fn no_keys() -> KeyState {
    KeyState { up: false, down: false, right: false, left: false, random: false, escape: false }
}

#[test]
fn spawn_into_an_empty_collection() {
    let mut spawner = Spawner::new();
    let mut vehicles = Vec::new();
    let id = spawner.try_spawn_with(&mut vehicles, (10 * PX, 20 * PX), Origin::East, (CAR_SPEED, 0), Route::Left, 3);
    assert_eq!(id, Some(0));
    assert_eq!(spawner.next_id, 1);
    assert_eq!(
        vehicles,
        vec![Vehicle { id: 0, pos: (10 * PX, 20 * PX), speed: (CAR_SPEED, 0), origin: Origin::East, route: Route::Left, color: 3, turned: false }]
    );
}

#[test]
fn spawn_on_an_occupied_spot_is_rejected() {
    let mut spawner = Spawner::new();
    let mut vehicles = Vec::new();
    let p = (430 * PX, 620 * PX);
    assert_eq!(spawner.try_spawn_with(&mut vehicles, p, Origin::South, (0, -CAR_SPEED), Route::Straight, 0), Some(0));
    let before = vehicles.clone();
    assert_eq!(spawner.try_spawn_with(&mut vehicles, p, Origin::South, (0, -CAR_SPEED), Route::Straight, 0), None);
    assert_eq!(vehicles, before);
    assert_eq!(vehicles.len(), 1);
    assert_eq!(spawner.next_id, 1);
    assert_eq!(spawner.try_spawn(&mut vehicles, p, Origin::South, (0, -CAR_SPEED)), None);
    assert_eq!(vehicles, before);
    assert_eq!(spawner.next_id, 1);
}

#[test]
fn clearance_radius_is_exclusive() {
    let p = (100 * PX, 100 * PX);
    let mut spawner = Spawner::new();
    let mut vehicles = Vec::new();
    spawner.try_spawn_with(&mut vehicles, p, Origin::South, (0, 0), Route::Straight, 0);
    // One unit inside the radius: rejected.
    let inside = (100 * PX + SPAWN_DISTANCE_CHECK - 1, 100 * PX);
    assert_eq!(spawner.try_spawn_with(&mut vehicles, inside, Origin::South, (0, 0), Route::Straight, 0), None);
    assert!(!Spawner::is_clear(&vehicles, inside));
    // On the radius: accepted.
    let on = (100 * PX + SPAWN_DISTANCE_CHECK, 100 * PX);
    assert!(Spawner::is_clear(&vehicles, on));
    assert_eq!(spawner.try_spawn_with(&mut vehicles, on, Origin::South, (0, 0), Route::Straight, 0), Some(1));
    // Diagonally: 30 and 30 pixels are more than 40 away, 28 and 28 are not.
    let mut lone = Vec::new();
    Spawner::new().try_spawn_with(&mut lone, (0, 0), Origin::South, (0, 0), Route::Straight, 0);
    assert!(Spawner::is_clear(&lone, (30 * PX, 30 * PX)));
    assert!(!Spawner::is_clear(&lone, (28 * PX, 28 * PX)));
}

#[test]
fn identifiers_count_up_and_run_out() {
    let mut spawner = Spawner::new();
    let mut vehicles = Vec::new();
    for k in 0..5usize {
        let id = spawner.try_spawn_with(&mut vehicles, (k as i64 * 100 * PX, 0), Origin::South, (0, 0), Route::Straight, 0);
        assert_eq!(id, Some(k));
        assert_eq!(vehicles[k].id, k);
    }
    let mut last = Spawner { next_id: usize::MAX };
    assert_eq!(last.try_spawn_with(&mut vehicles, (0, 900 * PX), Origin::South, (0, 0), Route::Straight, 0), None);
    assert_eq!(last.try_spawn(&mut vehicles, (0, 900 * PX), Origin::South, (0, 0)), None);
    assert_eq!(vehicles.len(), 5);
    assert_eq!(last.next_id, usize::MAX);
}

#[test]
fn route_from_roll_maps_the_draws() {
    assert_eq!(Spawner::route_from_roll(0), Route::Right);
    assert_eq!(Spawner::route_from_roll(1), Route::Left);
    assert_eq!(Spawner::route_from_roll(2), Route::Straight);
    assert_eq!(Spawner::route_from_roll(3), Route::Straight);
    assert_eq!(Spawner::route_from_roll(usize::MAX), Route::Straight);
}

#[test]
fn random_attributes_are_in_range_and_vary() {
    let mut colors = [0usize; 6];
    let mut routes = [0usize; 3];
    for _ in 0..600 {
        let (route, color) = Spawner::get_random_attributes();
        assert!(color < PALETTE_SIZE);
        colors[color] += 1;
        match route {
            Route::Right => routes[0] += 1,
            Route::Left => routes[1] += 1,
            Route::Straight => routes[2] += 1,
        }
    }
    assert!(colors.iter().all(|n| *n > 0), "{:?}", colors);
    assert!(routes.iter().all(|n| *n > 0), "{:?}", routes);
}

#[test]
fn random_spawn_sets_what_the_caller_gave() {
    let mut spawner = Spawner { next_id: 17 };
    let mut vehicles = Vec::new();
    let id = spawner.try_spawn(&mut vehicles, (5 * PX, 6 * PX), Origin::West, (-CAR_SPEED, 0));
    assert_eq!(id, Some(17));
    assert_eq!(spawner.next_id, 18);
    assert_eq!(vehicles.len(), 1);
    let v = vehicles[0];
    assert_eq!((v.id, v.pos, v.speed, v.origin, v.turned), (17, (5 * PX, 6 * PX), (-CAR_SPEED, 0), Origin::West, false));
    assert!(v.color < PALETTE_SIZE);
}

#[test]
fn spawn_points_and_lane_speeds() {
    assert_eq!(InputManager::spawn_position(Origin::South, CENTER, SCREEN), (425 * PX, 620 * PX));
    assert_eq!(InputManager::spawn_position(Origin::North, CENTER, SCREEN), (375 * PX, -20 * PX));
    assert_eq!(InputManager::spawn_position(Origin::East, CENTER, SCREEN), (-20 * PX, 325 * PX));
    assert_eq!(InputManager::spawn_position(Origin::West, CENTER, SCREEN), (820 * PX, 275 * PX));
    assert_eq!(InputManager::lane_speed(Origin::South), (0, -CAR_SPEED));
    assert_eq!(InputManager::lane_speed(Origin::North), (0, CAR_SPEED));
    assert_eq!(InputManager::lane_speed(Origin::East), (CAR_SPEED, 0));
    assert_eq!(InputManager::lane_speed(Origin::West), (-CAR_SPEED, 0));
    assert_eq!(SPAWN_OFFSET, 25 * PX);
    assert_eq!(SPAWN_MARGIN, 20 * PX);
}

#[test]
fn origin_from_roll_maps_the_draws() {
    assert_eq!(InputManager::origin_from_roll(0), Some(Origin::North));
    assert_eq!(InputManager::origin_from_roll(1), Some(Origin::South));
    assert_eq!(InputManager::origin_from_roll(2), Some(Origin::East));
    assert_eq!(InputManager::origin_from_roll(3), Some(Origin::West));
    assert_eq!(InputManager::origin_from_roll(4), None);
}

#[test]
fn no_key_changes_nothing() {
    let mut spawner = Spawner::new();
    let mut vehicles = Vec::new();
    assert!(!InputManager::handle_input(&mut vehicles, &mut spawner, CENTER, SCREEN, &no_keys()));
    assert!(vehicles.is_empty());
    assert_eq!(spawner.next_id, 0);
}

#[test]
fn escape_asks_to_quit() {
    let mut spawner = Spawner::new();
    let mut vehicles = Vec::new();
    let keys = KeyState { escape: true, ..no_keys() };
    assert!(InputManager::handle_input(&mut vehicles, &mut spawner, CENTER, SCREEN, &keys));
    assert!(vehicles.is_empty());
}

#[test]
fn arrow_keys_spawn_in_their_lanes() {
    let mut spawner = Spawner::new();
    let mut vehicles = Vec::new();
    let keys = KeyState { up: true, down: true, right: true, left: true, ..no_keys() };
    assert!(!InputManager::handle_input(&mut vehicles, &mut spawner, CENTER, SCREEN, &keys));
    let seen: Vec<(usize, Origin, (i64, i64), (i64, i64), bool)> =
        vehicles.iter().map(|v| (v.id, v.origin, v.pos, v.speed, v.turned)).collect();
    assert_eq!(
        seen,
        vec![
            (0, Origin::South, (425 * PX, 620 * PX), (0, -CAR_SPEED), false),
            (1, Origin::North, (375 * PX, -20 * PX), (0, CAR_SPEED), false),
            (2, Origin::East, (-20 * PX, 325 * PX), (CAR_SPEED, 0), false),
            (3, Origin::West, (820 * PX, 275 * PX), (-CAR_SPEED, 0), false),
        ]
    );
    assert!(vehicles.iter().all(|v| v.color < PALETTE_SIZE));
    assert_eq!(spawner.next_id, 4);
}

#[test]
fn a_second_request_in_the_same_place_is_dropped() {
    let mut spawner = Spawner::new();
    let mut vehicles = Vec::new();
    let keys = KeyState { up: true, ..no_keys() };
    InputManager::handle_input(&mut vehicles, &mut spawner, CENTER, SCREEN, &keys);
    assert_eq!(vehicles.len(), 1);
    InputManager::handle_input(&mut vehicles, &mut spawner, CENTER, SCREEN, &keys);
    assert_eq!(vehicles.len(), 1);
    assert_eq!(spawner.next_id, 1);
}

#[test]
fn a_full_lane_takes_no_vehicle() {
    let mut spawner = Spawner::new();
    let mut vehicles = Vec::new();
    for k in 0..LANE_CAPACITY {
        spawner.try_spawn_with(&mut vehicles, (425 * PX, (k as i64) * 50 * PX), Origin::South, (0, -CAR_SPEED), Route::Straight, 0);
    }
    assert_eq!(lane_occupancy(&vehicles, Origin::South), LANE_CAPACITY);
    let keys = KeyState { up: true, ..no_keys() };
    InputManager::handle_input(&mut vehicles, &mut spawner, CENTER, SCREEN, &keys);
    assert_eq!(vehicles.len(), LANE_CAPACITY);
    assert_eq!(InputManager::spawn_request(&mut vehicles, &mut spawner, Origin::South, LANE_CAPACITY, CENTER, SCREEN), None);
    // The other lanes are open.
    let keys = KeyState { down: true, ..no_keys() };
    InputManager::handle_input(&mut vehicles, &mut spawner, CENTER, SCREEN, &keys);
    assert_eq!(vehicles.len(), LANE_CAPACITY + 1);
    // One vehicle short of capacity, the lane takes one more.
    vehicles[0].turned = true;
    let keys = KeyState { up: true, ..no_keys() };
    InputManager::handle_input(&mut vehicles, &mut spawner, CENTER, SCREEN, &keys);
    assert_eq!(lane_occupancy(&vehicles, Origin::South), LANE_CAPACITY);
}

#[test]
fn random_key_spawns_one_vehicle_at_a_spawn_point() {
    let mut seen = [false; 4];
    for _ in 0..200 {
        let mut spawner = Spawner::new();
        let mut vehicles = Vec::new();
        let keys = KeyState { random: true, ..no_keys() };
        InputManager::handle_input(&mut vehicles, &mut spawner, CENTER, SCREEN, &keys);
        assert_eq!(vehicles.len(), 1);
        let v = vehicles[0];
        assert_eq!(v.pos, InputManager::spawn_position(v.origin, CENTER, SCREEN));
        assert_eq!(v.speed, InputManager::lane_speed(v.origin));
        assert!(!v.turned);
        match v.origin {
            Origin::North => seen[0] = true,
            Origin::South => seen[1] = true,
            Origin::East => seen[2] = true,
            Origin::West => seen[3] = true,
        }
    }
    assert_eq!(seen, [true; 4]);
}

#[test]
fn arrow_and_random_together_spawn_one_vehicle_per_lane_at_most() {
    for _ in 0..100 {
        let mut spawner = Spawner::new();
        let mut vehicles = Vec::new();
        let keys = KeyState { up: true, down: true, right: true, left: true, random: true, escape: false };
        InputManager::handle_input(&mut vehicles, &mut spawner, CENTER, SCREEN, &keys);
        assert_eq!(vehicles.len(), 4);
        for origin in [Origin::North, Origin::South, Origin::East, Origin::West] {
            assert_eq!(lane_occupancy(&vehicles, origin), 1);
        }
    }
}

#[test]
fn spawned_vehicles_have_identifiers_of_their_own() {
    let mut spawner = Spawner::new();
    let mut vehicles = Vec::new();
    for k in 0..20i64 {
        spawner.try_spawn(&mut vehicles, (k * 100 * PX, 0), Origin::East, (CAR_SPEED, 0));
        // A request on an occupied spot takes no identifier.
        spawner.try_spawn(&mut vehicles, (k * 100 * PX, 0), Origin::East, (CAR_SPEED, 0));
    }
    assert_eq!(vehicles.len(), 20);
    assert_eq!(spawner.next_id, 20);
    for (k, v) in vehicles.iter().enumerate() {
        assert_eq!(v.id, k);
        assert!(v.id < spawner.next_id);
    }
}
