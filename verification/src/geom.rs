//! Points in device pixels and exact distance comparisons.

use vstd::prelude::*;
use crate::fixed::{clamp_mag, clamp_spec, COORD_LIMIT};

verus! {

/// A 2D coordinate in device pixels, in fixed-point units.
/// Immutable value type; both components stay within `COORD_LIMIT`.
#[derive(Clone, Copy, Debug, PartialEq, Eq, Structural)]
pub struct Point {
    pub x: i64,
    pub y: i64,
}

impl Point {
    /// Both components within the representable coordinate range.
    pub open spec fn wf(self) -> bool {
        -COORD_LIMIT <= self.x <= COORD_LIMIT && -COORD_LIMIT <= self.y <= COORD_LIMIT
    }

    /// Build a point, clamping each component into the coordinate range so
    /// that later distance arithmetic cannot overflow.
    pub fn new(x: i64, y: i64) -> (r: Point)
        ensures
            r.wf(),
            r.x == clamp_spec(x as int, COORD_LIMIT as int),
            r.y == clamp_spec(y as int, COORD_LIMIT as int),
    {
        Point { x: clamp_mag(x, COORD_LIMIT), y: clamp_mag(y, COORD_LIMIT) }
    }
}

/// The squared Euclidean distance between two points, in squared
/// fixed-point units. Zero exactly when the points coincide, and the
/// comparison `distance(a, b) >= t` (for `t >= 0`) is exactly
/// `dist_sq(a, b) >= t * t`, so no square root is ever taken.
pub open spec fn dist_sq(a: Point, b: Point) -> int {
    (a.x - b.x) * (a.x - b.x) + (a.y - b.y) * (a.y - b.y)
}

/// Squared distance between two in-range points. Exact: never negative,
/// and zero exactly for coinciding points.
pub fn dist_sq_exec(a: Point, b: Point) -> (r: i64)
    requires
        a.wf(),
        b.wf(),
    ensures
        r == dist_sq(a, b),
        r >= 0,
        r == 0 <==> (a.x == b.x && a.y == b.y),
{
    proof {
        lemma_dist_sq_zero(a, b);
    }
    let dx: i64 = a.x - b.x;
    let dy: i64 = a.y - b.y;
    proof {
        let m: int = 2 * COORD_LIMIT;
        assert(0 <= (dx as int) * (dx as int) <= m * m) by (nonlinear_arith)
            requires
                -m <= dx as int <= m,
        ;
        assert(0 <= (dy as int) * (dy as int) <= m * m) by (nonlinear_arith)
            requires
                -m <= dy as int <= m,
        ;
    }
    let sq: i128 = (dx as i128) * (dx as i128) + (dy as i128) * (dy as i128);
    sq as i64
}

/// Whether the distance between `a` and `b` is at least `threshold`
/// (a nonnegative fixed-point length). Decided exactly on squares.
pub fn dist_at_least(a: Point, b: Point, threshold: i64) -> (r: bool)
    requires
        a.wf(),
        b.wf(),
        0 <= threshold <= i32::MAX as i64,
    ensures
        r == (dist_sq(a, b) >= threshold * threshold),
{
    proof {
        assert(threshold * threshold <= (i32::MAX as int) * (i32::MAX as int))
            by (nonlinear_arith)
            requires
                0 <= threshold as int <= i32::MAX as int,
        ;
    }
    let t2: i64 = threshold * threshold;
    dist_sq_exec(a, b) >= t2
}

/// A point equals itself at distance zero: `dist_sq` is zero iff the
/// points coincide, and never negative.
pub proof fn lemma_dist_sq_zero(a: Point, b: Point)
    ensures
        dist_sq(a, b) >= 0,
        dist_sq(a, b) == 0 <==> (a.x == b.x && a.y == b.y),
{
    let dx = a.x - b.x;
    let dy = a.y - b.y;
    assert(dx * dx >= 0) by (nonlinear_arith);
    assert(dy * dy >= 0) by (nonlinear_arith);
    assert(dx != 0 ==> dx * dx > 0) by (nonlinear_arith);
    assert(dy != 0 ==> dy * dy > 0) by (nonlinear_arith);
}

} // verus!
