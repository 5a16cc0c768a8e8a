//! Fixed-point plane geometry shared by both intersection models.
//!
//! Lengths are whole numbers of *units*; one pixel is [`PX`] units. Every
//! length the models use (half pixels, the points of a turn curve) is a whole
//! number of units, so no step of a simulation rounds.

use vstd::prelude::*;

verus! {

/// Units per pixel.
pub const PX: i64 = 2048;

/// Largest magnitude of a coordinate that the arithmetic here accepts.
pub const COORD_MAX: i64 = 0x4000_0000;

/// A point of the plane, as `(x, y)` in units. `y` grows downwards.
pub type Point = (i64, i64);

/// `c` is a coordinate whose differences and squares fit the machine integers.
pub open spec fn coord_ok(c: int) -> bool {
    -COORD_MAX <= c <= COORD_MAX
}

/// Both coordinates of `p` are within [`COORD_MAX`].
pub open spec fn point_ok(p: Point) -> bool {
    coord_ok(p.0 as int) && coord_ok(p.1 as int)
}

/// Squared Euclidean distance between `a` and `b`.
pub open spec fn dist_sq(a: Point, b: Point) -> int {
    (a.0 - b.0) * (a.0 - b.0) + (a.1 - b.1) * (a.1 - b.1)
}

/// `r` is the integer square root of `n`: the largest integer whose square
/// does not exceed `n`.
pub open spec fn is_floor_sqrt(n: int, r: int) -> bool {
    0 <= r && r * r <= n && n < (r + 1) * (r + 1)
}

/// The square of a difference of two accepted coordinates is below `2^62`.
pub proof fn lemma_square_bound(d: int)
    requires
        -2 * COORD_MAX <= d <= 2 * COORD_MAX,
    ensures
        0 <= d * d <= 0x4000_0000_0000_0000,
{
    assert(0 <= d * d <= 0x4000_0000_0000_0000) by (nonlinear_arith)
        requires
            -0x8000_0000 <= d <= 0x8000_0000,
    ;
}

/// Two points that are `r` apart along one axis are `r` apart.
pub proof fn lemma_far_on_one_axis(a: Point, b: Point, r: int)
    requires
        0 <= r,
        a.0 - b.0 >= r || b.0 - a.0 >= r || a.1 - b.1 >= r || b.1 - a.1 >= r,
    ensures
        dist_sq(a, b) >= r * r,
{
    let dx = a.0 - b.0;
    let dy = a.1 - b.1;
    assert(dx * dx >= 0 && dy * dy >= 0) by (nonlinear_arith);
    if dx >= r || -dx >= r {
        assert(dx * dx >= r * r) by (nonlinear_arith)
            requires
                0 <= r,
                dx >= r || -dx >= r,
        ;
    } else {
        assert(dy * dy >= r * r) by (nonlinear_arith)
            requires
                0 <= r,
                dy >= r || -dy >= r,
        ;
    }
}

/// A step of at most `s` along one axis brings a point no closer than
/// `r - s` to a point from which it was at least `r` away.
pub proof fn lemma_axis_step_keeps_distance(a: Point, b: Point, p: Point, s: int, r: int)
    requires
        0 <= s <= r,
        (a.1 == b.1 && -s <= b.0 - a.0 <= s) || (a.0 == b.0 && -s <= b.1 - a.1 <= s),
        dist_sq(a, p) >= r * r,
    ensures
        dist_sq(b, p) >= (r - s) * (r - s),
{
    if a.1 == b.1 && -s <= b.0 - a.0 <= s {
        lemma_step_towards(a.0 - p.0, a.1 - p.1, b.0 - a.0, s, r);
    } else {
        lemma_step_towards(a.1 - p.1, a.0 - p.0, b.1 - a.1, s, r);
    }
}

/// The arithmetic of [`lemma_axis_step_keeps_distance`]: `along` and
/// `across` are the offsets from the far point on the axis of the step and
/// across it, and `e` is the step.
pub proof fn lemma_step_towards(along: int, across: int, e: int, s: int, r: int)
    requires
        0 <= s <= r,
        -s <= e <= s,
        along * along + across * across >= r * r,
    ensures
        (along + e) * (along + e) + across * across >= (r - s) * (r - s),
{
    let m = if along >= 0 { along } else { -along };
    let f = if e >= 0 { e } else { -e };
    let target = (r - s) * (r - s);
    let moved = (along + e) * (along + e);
    let aa = along * along;
    let cc = across * across;
    assert(cc >= 0) by (nonlinear_arith)
        requires
            cc == across * across,
    ;
    // The step shortens the offset along its axis by `f` at most.
    assert(moved >= m * m - 2 * (m * f) + f * f) by (nonlinear_arith)
        requires
            moved == (along + e) * (along + e),
            m == along || m == -along,
            f == e || f == -e,
            m >= 0,
            f >= 0,
    ;
    assert(m * m == aa) by (nonlinear_arith)
        requires
            aa == along * along,
            m == along || m == -along,
    ;
    if m >= r {
        assert(m * m - 2 * (m * f) + f * f >= target) by (nonlinear_arith)
            requires
                target == (r - s) * (r - s),
                m >= r,
                0 <= f <= s,
                s <= r,
        ;
    } else {
        assert(r * r - 2 * (m * f) + f * f >= target) by (nonlinear_arith)
            requires
                target == (r - s) * (r - s),
                0 <= m < r,
                0 <= f <= s,
                s <= r,
        ;
    }
}

/// Squared Euclidean distance between two points.
pub fn distance_squared(a: Point, b: Point) -> (d: u64)
    requires
        point_ok(a),
        point_ok(b),
    ensures
        d == dist_sq(a, b),
{
    let dx: i64 = a.0 - b.0;
    let dy: i64 = a.1 - b.1;
    proof {
        lemma_square_bound(dx as int);
        lemma_square_bound(dy as int);
    }
    let sx: i64 = dx * dx;
    let sy: i64 = dy * dy;
    sx as u64 + sy as u64
}

/// Integer square root.
pub fn isqrt(n: u64) -> (r: u64)
    ensures
        is_floor_sqrt(n as int, r as int),
{
    let mut lo: u64 = 0;
    let mut hi: u64 = 0x1_0000_0000;
    assert(n < hi * hi) by {
        assert(0x1_0000_0000int * 0x1_0000_0000int == 0x1_0000_0000_0000_0000int);
    }
    while hi - lo > 1
        invariant
            lo < hi <= 0x1_0000_0000,
            lo * lo <= n,
            n < hi * hi,
        decreases hi - lo,
    {
        let mid: u64 = lo + (hi - lo) / 2;
        assert(mid * mid <= 0xFFFF_FFFF * 0xFFFF_FFFF) by (nonlinear_arith)
            requires
                0 <= mid <= 0xFFFF_FFFF,
        ;
        if mid * mid <= n {
            lo = mid;
        } else {
            hi = mid;
        }
    }
    lo
}

} // verus!
