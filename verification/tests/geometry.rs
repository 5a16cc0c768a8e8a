use road_intersection::geometry::{distance_squared, isqrt, COORD_MAX, PX};

#[test]
fn isqrt_of_small_numbers() {
    let expected: [(u64, u64); 12] = [
        (0, 0),
        (1, 1),
        (2, 1),
        (3, 1),
        (4, 2),
        (8, 2),
        (9, 3),
        (15, 3),
        (16, 4),
        (17, 4),
        (99, 9),
        (100, 10),
    ];
    for (n, r) in expected {
        assert_eq!(isqrt(n), r, "isqrt({})", n);
    }
}

#[test]
fn isqrt_at_the_ends_of_the_range() {
    assert_eq!(isqrt(u64::MAX), 4_294_967_295);
    assert_eq!(isqrt(4_294_967_295 * 4_294_967_295), 4_294_967_295);
    assert_eq!(isqrt(4_294_967_295 * 4_294_967_295 - 1), 4_294_967_294);
    assert_eq!(isqrt(1 << 62), 1 << 31);
}

#[test]
fn isqrt_brackets_every_number_below_ten_thousand() {
    for n in 0..10_000u64 {
        let r = isqrt(n);
        assert!(r * r <= n && n < (r + 1) * (r + 1), "isqrt({}) = {}", n, r);
    }
}

#[test]
fn distance_squared_of_a_three_four_five_triangle() {
    assert_eq!(distance_squared((0, 0), (3 * PX, 4 * PX)), (25 * PX * PX) as u64);
    assert_eq!(distance_squared((3 * PX, 4 * PX), (0, 0)), (25 * PX * PX) as u64);
    assert_eq!(distance_squared((-PX, -PX), (2 * PX, 3 * PX)), (25 * PX * PX) as u64);
}

#[test]
fn distance_squared_of_a_point_to_itself_is_zero() {
    assert_eq!(distance_squared((7, -9), (7, -9)), 0);
}

#[test]
fn distance_squared_across_the_whole_plane_fits() {
    let far = distance_squared((-COORD_MAX, -COORD_MAX), (COORD_MAX, COORD_MAX));
    assert_eq!(far, 1u64 << 63);
}
