use road_intersection::traffic_light::{
    Phase, TrafficLightSystem, BASE_GREEN, CONGESTION_THRESHOLD, EXTENDED_GREEN, MIN_GREEN,
};
use road_intersection::vehicle::{Direction, Route, Vehicle};

/// `ns` vehicles waiting on the north-south axis and `ew` on the other, and
/// one of each axis that drives.
fn axes(ns: usize, ew: usize) -> Vec<Vehicle> {
    let mut v = Vec::new();
    for k in 0..ns {
        let mut w = Vehicle::new(if k % 2 == 0 { Direction::North } else { Direction::South }, Route::Straight);
        w.waiting = true;
        v.push(w);
    }
    v.push(Vehicle::new(Direction::South, Route::Straight));
    for k in 0..ew {
        let mut w = Vehicle::new(if k % 2 == 0 { Direction::East } else { Direction::West }, Route::Straight);
        w.waiting = true;
        v.push(w);
    }
    v.push(Vehicle::new(Direction::West, Route::Straight));
    v
}

#[test]
fn durations_have_the_configured_values() {
    assert_eq!((MIN_GREEN, BASE_GREEN, EXTENDED_GREEN), (3000, 5000, 10000));
    assert_eq!(CONGESTION_THRESHOLD, 6);
}

#[test]
fn signal_starts_with_north_south() {
    let lights = TrafficLightSystem::new(1234);
    assert_eq!(lights.phase, Phase::NorthSouth);
    assert_eq!(lights.last_switch, 1234);
    assert!(lights.is_green(&Direction::North));
    assert!(lights.is_green(&Direction::South));
    assert!(!lights.is_green(&Direction::East));
    assert!(!lights.is_green(&Direction::West));
}

#[test]
fn one_axis_is_green_at_a_time() {
    for phase in [Phase::NorthSouth, Phase::EastWest] {
        let lights = TrafficLightSystem { phase, last_switch: 0 };
        assert_eq!(lights.is_green(&Direction::North), lights.is_green(&Direction::South));
        assert_eq!(lights.is_green(&Direction::East), lights.is_green(&Direction::West));
        assert_ne!(lights.is_green(&Direction::North), lights.is_green(&Direction::East));
    }
}

#[test]
fn count_waiting_by_axis() {
    let vehicles = axes(3, 5);
    assert_eq!(TrafficLightSystem::count_waiting(&vehicles, Phase::NorthSouth), 3);
    assert_eq!(TrafficLightSystem::count_waiting(&vehicles, Phase::EastWest), 5);
    assert_eq!(TrafficLightSystem::count_waiting(&[], Phase::EastWest), 0);
}

#[test]
fn phase_ends_after_the_base_duration() {
    let mut lights = TrafficLightSystem::new(1000);
    lights.update(&axes(0, 0), 1000 + BASE_GREEN - 1);
    assert_eq!(lights.phase, Phase::NorthSouth);
    assert_eq!(lights.last_switch, 1000);
    lights.update(&axes(0, 0), 1000 + BASE_GREEN);
    assert_eq!(lights.phase, Phase::EastWest);
    assert_eq!(lights.last_switch, 1000 + BASE_GREEN);
    lights.update(&axes(0, 0), 1000 + 2 * BASE_GREEN - 1);
    assert_eq!(lights.phase, Phase::EastWest);
    lights.update(&axes(0, 0), 1000 + 2 * BASE_GREEN);
    assert_eq!(lights.phase, Phase::NorthSouth);
    assert_eq!(lights.last_switch, 1000 + 2 * BASE_GREEN);
}

#[test]
fn congested_axis_keeps_green_longer() {
    let mut lights = TrafficLightSystem::new(0);
    let congested = axes(CONGESTION_THRESHOLD, 2);
    lights.update(&congested, BASE_GREEN);
    assert_eq!(lights.phase, Phase::NorthSouth);
    lights.update(&congested, EXTENDED_GREEN - 1);
    assert_eq!(lights.phase, Phase::NorthSouth);
    lights.update(&congested, EXTENDED_GREEN);
    assert_eq!(lights.phase, Phase::EastWest);
    // One vehicle fewer and the axis is not congested.
    let mut lights = TrafficLightSystem::new(0);
    lights.update(&axes(CONGESTION_THRESHOLD - 1, 2), BASE_GREEN);
    assert_eq!(lights.phase, Phase::EastWest);
}

#[test]
fn busier_red_axis_ends_the_phase_early() {
    let mut lights = TrafficLightSystem::new(0);
    lights.update(&axes(1, 2), MIN_GREEN - 1);
    assert_eq!(lights.phase, Phase::NorthSouth);
    lights.update(&axes(1, 2), MIN_GREEN);
    assert_eq!(lights.phase, Phase::EastWest);
    assert_eq!(lights.last_switch, MIN_GREEN);
    // And back, when north-south is the busier one.
    lights.update(&axes(3, 2), 2 * MIN_GREEN - 1);
    assert_eq!(lights.phase, Phase::EastWest);
    lights.update(&axes(3, 2), 2 * MIN_GREEN);
    assert_eq!(lights.phase, Phase::NorthSouth);
}

#[test]
fn equally_busy_axes_do_not_end_the_phase_early() {
    let mut lights = TrafficLightSystem::new(0);
    lights.update(&axes(2, 2), MIN_GREEN);
    assert_eq!(lights.phase, Phase::NorthSouth);
    lights.update(&axes(2, 2), BASE_GREEN - 1);
    assert_eq!(lights.phase, Phase::NorthSouth);
}

#[test]
fn congestion_on_the_red_axis_beats_congestion_on_the_green_one() {
    let mut lights = TrafficLightSystem::new(0);
    lights.update(&axes(6, 7), MIN_GREEN);
    assert_eq!(lights.phase, Phase::EastWest);
}

#[test]
fn no_phase_ends_before_the_minimum() {
    for ns in 0..8 {
        for ew in 0..8 {
            let mut lights = TrafficLightSystem::new(500);
            lights.update(&axes(ns, ew), 500 + MIN_GREEN - 1);
            assert_eq!(lights.phase, Phase::NorthSouth);
            assert_eq!(lights.last_switch, 500);
        }
    }
}

#[test]
fn a_clock_that_runs_backwards_counts_as_no_time() {
    let mut lights = TrafficLightSystem::new(10_000);
    lights.update(&axes(0, 9), 0);
    assert_eq!(lights.phase, Phase::NorthSouth);
    assert_eq!(lights.last_switch, 10_000);
}
