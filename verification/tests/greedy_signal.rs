use road_intersection::app_config::{CENTER_HALF, MIN_GREEN_TIME};
use road_intersection::entity::traffic_light::TrafficLightSystem;
use road_intersection::entity::vehicle::Vehicle;
use road_intersection::geometry::PX;
use road_intersection::types::{Origin, Route};

const CENTER: (i64, i64) = (400 * PX, 300 * PX);

/// A queued vehicle of `origin`, far from the centre.
fn queued(id: usize, origin: Origin) -> Vehicle {
    Vehicle::new(id, (0, 0), (0, 0), origin, Route::Straight, 0)
}

fn lanes(north: usize, south: usize, east: usize, west: usize) -> Vec<Vehicle> {
    let mut v = Vec::new();
    for (origin, n) in [
        (Origin::West, west),
        (Origin::East, east),
        (Origin::South, south),
        (Origin::North, north),
    ] {
        for _ in 0..n {
            v.push(queued(v.len(), origin));
        }
    }
    v
}

#[test]
fn new_signal_has_no_green() {
    let lights = TrafficLightSystem::new();
    assert_eq!(lights.get_active_green(), None);
    assert_eq!(lights.green_timer, 0);
}

#[test]
fn min_green_time_is_half_a_second() {
    assert_eq!(MIN_GREEN_TIME, 500);
}

#[test]
fn empty_intersection_defaults_to_north() {
    let mut lights = TrafficLightSystem::new();
    lights.green_timer = 42;
    lights.decide_next_green(&[]);
    assert_eq!(lights.get_active_green(), Some(Origin::North));
    // The first grant is a change of hands: the timer restarts.
    assert_eq!(lights.green_timer, 0);
}

#[test]
fn first_grant_restarts_the_timer() {
    let mut lights = TrafficLightSystem::new();
    lights.update(16, &[], CENTER);
    assert_eq!(lights.get_active_green(), Some(Origin::North));
    assert_eq!(lights.green_timer, 0);
    lights.update(16, &[], CENTER);
    assert_eq!(lights.get_active_green(), Some(Origin::North));
    assert_eq!(lights.green_timer, 16);
}

#[test]
fn first_green_is_held_for_the_minimum_time() {
    let mut lights = TrafficLightSystem::new();
    lights.update(400, &[], CENTER);
    assert_eq!(lights.get_active_green(), Some(Origin::North));
    // South is the busier lane from now on, but north has had no time yet.
    let vehicles = lanes(0, 3, 0, 0);
    lights.update(MIN_GREEN_TIME - 1, &vehicles, CENTER);
    assert_eq!(lights.get_active_green(), Some(Origin::North));
    assert_eq!(lights.green_timer, MIN_GREEN_TIME - 1);
    lights.update(1, &vehicles, CENTER);
    assert_eq!(lights.get_active_green(), Some(Origin::South));
    assert_eq!(lights.green_timer, 0);
}

#[test]
fn timer_runs_on_while_green_stays_and_restarts_when_it_moves() {
    let mut lights = TrafficLightSystem::new();
    let mut vehicles = lanes(0, 2, 1, 0);
    let mut expected = 0;
    for tick in 0..200 {
        if tick == 100 {
            // East becomes the busier lane.
            vehicles = lanes(0, 2, 3, 0);
        }
        let before = lights.get_active_green();
        lights.update(16, &vehicles, CENTER);
        if lights.get_active_green() != before {
            expected = 0;
        } else {
            expected += 16;
        }
        assert_eq!(lights.green_timer, expected, "tick {}", tick);
    }
    assert_eq!(lights.get_active_green(), Some(Origin::East));
}

#[test]
fn empty_intersection_keeps_the_green_it_has() {
    let mut lights = TrafficLightSystem { active_green: Some(Origin::East), green_timer: 900 };
    lights.decide_next_green(&[]);
    assert_eq!(lights.get_active_green(), Some(Origin::East));
    assert_eq!(lights.green_timer, 900);
}

#[test]
fn busiest_lane_gets_green_and_the_timer_restarts() {
    let mut lights = TrafficLightSystem { active_green: Some(Origin::North), green_timer: 900 };
    lights.decide_next_green(&lanes(1, 2, 3, 2));
    assert_eq!(lights.get_active_green(), Some(Origin::East));
    assert_eq!(lights.green_timer, 0);
}

#[test]
fn ties_go_to_the_first_of_north_south_east_west() {
    let cases = [
        ((2, 2, 2, 2), Origin::North),
        ((1, 2, 2, 2), Origin::South),
        ((0, 1, 2, 2), Origin::East),
        ((0, 0, 0, 1), Origin::West),
        ((3, 0, 0, 3), Origin::North),
        ((0, 3, 0, 3), Origin::South),
    ];
    for ((n, s, e, w), expected) in cases {
        let mut lights = TrafficLightSystem::new();
        lights.decide_next_green(&lanes(n, s, e, w));
        assert_eq!(lights.get_active_green(), Some(expected), "{:?}", (n, s, e, w));
    }
}

#[test]
fn green_that_stays_keeps_its_timer() {
    let mut lights = TrafficLightSystem { active_green: Some(Origin::South), green_timer: 777 };
    lights.decide_next_green(&lanes(1, 4, 0, 0));
    assert_eq!(lights.get_active_green(), Some(Origin::South));
    assert_eq!(lights.green_timer, 777);
}

#[test]
fn turned_vehicles_do_not_count() {
    let mut vehicles = lanes(0, 3, 0, 1);
    for v in vehicles.iter_mut() {
        if v.origin == Origin::South {
            v.turned = true;
        }
    }
    let mut lights = TrafficLightSystem::new();
    lights.decide_next_green(&vehicles);
    assert_eq!(lights.get_active_green(), Some(Origin::West));
}

#[test]
fn first_update_decides_at_once() {
    let mut lights = TrafficLightSystem::new();
    // A vehicle in the middle of the intersection does not delay the first
    // decision.
    let mut vehicles = lanes(0, 0, 2, 0);
    vehicles.push(Vehicle::new(9, CENTER, (0, 0), Origin::West, Route::Straight, 0));
    lights.update(16, &vehicles, CENTER);
    assert_eq!(lights.get_active_green(), Some(Origin::East));
    assert_eq!(lights.green_timer, 0);
}

#[test]
fn green_is_held_for_the_minimum_time() {
    let mut lights = TrafficLightSystem { active_green: Some(Origin::North), green_timer: 0 };
    let vehicles = lanes(0, 5, 0, 0);
    lights.update(MIN_GREEN_TIME - 1, &vehicles, CENTER);
    assert_eq!(lights.get_active_green(), Some(Origin::North));
    assert_eq!(lights.green_timer, MIN_GREEN_TIME - 1);
    lights.update(1, &vehicles, CENTER);
    assert_eq!(lights.get_active_green(), Some(Origin::South));
    assert_eq!(lights.green_timer, 0);
}

#[test]
fn green_is_held_while_the_centre_is_occupied() {
    let mut lights = TrafficLightSystem { active_green: Some(Origin::North), green_timer: 10_000 };
    let mut vehicles = lanes(0, 5, 0, 0);
    let mut crossing = Vehicle::new(99, (CENTER.0 + CENTER_HALF - 1, CENTER.1 - CENTER_HALF + 1), (0, 0), Origin::North, Route::Straight, 0);
    crossing.turned = true;
    vehicles.push(crossing);
    lights.update(16, &vehicles, CENTER);
    assert_eq!(lights.get_active_green(), Some(Origin::North));
    assert_eq!(lights.green_timer, 10_016);
}

#[test]
fn a_vehicle_on_the_edge_of_the_central_zone_is_outside() {
    for pos in [
        (CENTER.0 + CENTER_HALF, CENTER.1),
        (CENTER.0 - CENTER_HALF, CENTER.1),
        (CENTER.0, CENTER.1 + CENTER_HALF),
        (CENTER.0, CENTER.1 - CENTER_HALF),
    ] {
        let mut lights = TrafficLightSystem { active_green: Some(Origin::North), green_timer: 10_000 };
        let mut vehicles = lanes(0, 5, 0, 0);
        let mut leaving = Vehicle::new(99, pos, (0, 0), Origin::North, Route::Straight, 0);
        leaving.turned = true;
        vehicles.push(leaving);
        lights.update(16, &vehicles, CENTER);
        assert_eq!(lights.get_active_green(), Some(Origin::South), "{:?}", pos);
    }
}

#[test]
fn timer_stops_at_the_largest_value() {
    let mut lights = TrafficLightSystem { active_green: Some(Origin::North), green_timer: u64::MAX - 5 };
    lights.update(100, &[], CENTER);
    assert_eq!(lights.green_timer, u64::MAX);
    assert_eq!(lights.get_active_green(), Some(Origin::North));
}

#[test]
fn only_one_origin_is_green() {
    let mut lights = TrafficLightSystem::new();
    let vehicles = lanes(1, 3, 2, 0);
    for _ in 0..100 {
        lights.update(16, &vehicles, CENTER);
        let green = lights.get_active_green();
        let greens = [Origin::North, Origin::South, Origin::East, Origin::West]
            .iter()
            .filter(|o| green == Some(**o))
            .count();
        assert_eq!(greens, 1);
    }
    assert_eq!(lights.get_active_green(), Some(Origin::South));
}
