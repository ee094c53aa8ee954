//! Fixed-point arithmetic of the engine: 2-D vectors and points, the
//! exponential-smoothing blend `lerp`, toroidal coordinate wrapping, and an
//! integer square root.
//!
//! `lerp` rounds its step away from zero, so a blend toward a differing
//! target always makes progress and repeated blending reaches the target
//! exactly instead of stalling one unit short.

use vstd::prelude::*;
use vstd::arithmetic::div_mod::{
    lemma_fundamental_div_mod,
    lemma_fundamental_div_mod_converse_div,
    lemma_mod_add_multiples_vanish,
    lemma_mod_division_less_than_divisor,
    lemma_mod_sub_multiples_vanish,
    lemma_small_mod,
};
use crate::config::{SCALE, LERP_MAX};

verus! {

/// A 2-D velocity or offset in fixed-point units.
#[derive(Clone, Copy, Debug, PartialEq, Eq, Structural)]
pub struct Vec2i {
    pub x: i64,
    pub y: i64,
}

/// A 2-D position in fixed-point units.
#[derive(Clone, Copy, Debug, PartialEq, Eq, Structural)]
pub struct Point2 {
    pub x: i64,
    pub y: i64,
}

/// Truncating division (toward zero) for a positive divisor; the value of
/// Rust's `/` on signed integers.
pub open spec fn div_trunc(a: int, b: int) -> int {
    if a >= 0 {
        a / b
    } else {
        -((-a) / b)
    }
}

/// Division for a positive divisor that rounds away from zero: the step a
/// blend takes, so that a nonzero gap always moves.
pub open spec fn div_away(a: int, b: int) -> int {
    if a >= 0 {
        if a % b == 0 {
            a / b
        } else {
            a / b + 1
        }
    } else {
        a / b
    }
}

/// The value of one smoothing step: `start` moved toward `target` by the
/// fraction `alpha / SCALE` of the gap, the step rounded away from zero.
pub open spec fn lerp_spec(start: int, target: int, alpha: int) -> int {
    start + div_away((target - start) * alpha, SCALE as int)
}

/// A coordinate wrapped toroidally into `[0, extent)`.
pub open spec fn wrap_spec(x: int, extent: int) -> int {
    x % extent
}

/// For a nonnegative dividend, `(a + b - 1) / b` is division rounded up.
proof fn lemma_div_ceil(a: int, b: int)
    requires
        a >= 0,
        b > 0,
    ensures
        (a + b - 1) / b == div_away(a, b),
{
    let q = a / b;
    let r = a % b;
    lemma_fundamental_div_mod(a, b);
    lemma_mod_division_less_than_divisor(a, b);
    if r == 0 {
        assert(a + b - 1 == q * b + (b - 1)) by {
            assert(a == b * q + r);
            assert(b * q == q * b) by (nonlinear_arith);
        }
        lemma_fundamental_div_mod_converse_div(a + b - 1, b, q, b - 1);
    } else {
        assert(a + b - 1 == (q + 1) * b + (r - 1)) by {
            assert(a == b * q + r);
            assert((q + 1) * b == q * b + b) by (nonlinear_arith);
            assert(b * q == q * b) by (nonlinear_arith);
        }
        lemma_fundamental_div_mod_converse_div(a + b - 1, b, q + 1, r - 1);
    }
}

/// For a negative dividend, rounding the magnitude up and negating is the
/// same as Euclidean division, which already rounds away from zero.
proof fn lemma_div_away_neg(a: int, b: int)
    requires
        a < 0,
        b > 0,
    ensures
        -((-a + b - 1) / b) == div_away(a, b),
{
    let q = a / b;
    let r = a % b;
    lemma_fundamental_div_mod(a, b);
    lemma_mod_division_less_than_divisor(a, b);
    if r == 0 {
        assert(-a + b - 1 == (-q) * b + (b - 1)) by {
            assert(a == b * q + r);
            assert((-q) * b == -(b * q)) by (nonlinear_arith);
        }
        lemma_fundamental_div_mod_converse_div(-a + b - 1, b, -q, b - 1);
    } else {
        assert(-a + b - 1 == (-q) * b + (b - r - 1)) by {
            assert(a == b * q + r);
            assert((-q) * b == -(b * q)) by (nonlinear_arith);
        }
        lemma_fundamental_div_mod_converse_div(-a + b - 1, b, -q, b - r - 1);
    }
}

/// The step `div_away(d * alpha, SCALE)` lands between 0 and `d`: a blend
/// never overshoots its target and never moves backward.
proof fn lemma_step_within_gap(d: int, alpha: int)
    requires
        0 <= alpha <= SCALE,
    ensures
        d >= 0 ==> 0 <= div_away(d * alpha, SCALE as int) <= d,
        d <= 0 ==> d <= div_away(d * alpha, SCALE as int) <= 0,
{
    let s = SCALE as int;
    let m = d * alpha;
    if d >= 0 {
        assert(0 <= m <= d * s) by (nonlinear_arith)
            requires d >= 0 && 0 <= alpha <= s && m == d * alpha;
        lemma_fundamental_div_mod(m, s);
        lemma_mod_division_less_than_divisor(m, s);
        assert(m / s >= 0) by (nonlinear_arith)
            requires s > 0 && m == s * (m / s) + m % s && 0 <= m % s < s && m >= 0;
        if m % s == 0 {
            assert(m / s <= d) by (nonlinear_arith)
                requires s > 0 && m == s * (m / s) + m % s && 0 <= m % s < s && m <= d * s;
        } else {
            assert(m / s + 1 <= d) by (nonlinear_arith)
                requires s > 0 && m == s * (m / s) + m % s && 0 < m % s < s && m <= d * s;
        }
    } else {
        assert(d * s <= m < 0 || m == 0) by (nonlinear_arith)
            requires d <= 0 && 0 <= alpha <= s && m == d * alpha;
        if m == 0 {
            lemma_small_mod(0, s as nat);
        } else {
            lemma_fundamental_div_mod(m, s);
            lemma_mod_division_less_than_divisor(m, s);
            assert(m / s <= 0) by (nonlinear_arith)
                requires s > 0 && m == s * (m / s) + m % s && 0 <= m % s < s && m < 0;
            assert(d <= m / s) by (nonlinear_arith)
                requires s > 0 && m == s * (m / s) + m % s && 0 <= m % s < s && d * s <= m;
        }
    }
}

/// Smoothing never overshoots: the blended value lies between the old value
/// and the target, on whichever side the target is.
pub proof fn lemma_lerp_bounds(start: int, target: int, alpha: int)
    requires
        0 <= alpha <= SCALE,
    ensures
        start <= target ==> start <= lerp_spec(start, target, alpha) <= target,
        target <= start ==> target <= lerp_spec(start, target, alpha) <= start,
{
    lemma_step_within_gap(target - start, alpha);
}

/// A blend with a positive factor toward a differing target strictly moves:
/// the result is not the old value, and the remaining gap strictly shrinks.
/// Repeated blending toward a fixed target therefore reaches it exactly.
pub proof fn lemma_lerp_progress(start: int, target: int, alpha: int)
    requires
        0 < alpha <= SCALE,
        start != target,
    ensures
        lerp_spec(start, target, alpha) != start,
        start < target ==> start < lerp_spec(start, target, alpha) <= target,
        target < start ==> target <= lerp_spec(start, target, alpha) < start,
{
    let s = SCALE as int;
    let d = target - start;
    let m = d * alpha;
    lemma_step_within_gap(d, alpha);
    if d > 0 {
        assert(m >= alpha) by (nonlinear_arith)
            requires d >= 1 && alpha > 0 && m == d * alpha;
        lemma_fundamental_div_mod(m, s);
        lemma_mod_division_less_than_divisor(m, s);
        assert(m / s >= 1 || (m / s == 0 && m % s != 0)) by (nonlinear_arith)
            requires s > 0 && m == s * (m / s) + m % s && 0 <= m % s < s && m >= 1;
    } else {
        assert(m <= -alpha) by (nonlinear_arith)
            requires d <= -1 && alpha > 0 && m == d * alpha;
        lemma_fundamental_div_mod(m, s);
        lemma_mod_division_less_than_divisor(m, s);
        assert(m / s <= -1) by (nonlinear_arith)
            requires s > 0 && m == s * (m / s) + m % s && 0 <= m % s < s && m <= -1;
    }
}

/// `start` blended toward `target` `k` ticks in a row.
pub open spec fn lerp_iter(start: int, target: int, alpha: int, k: nat) -> int
    decreases k,
{
    if k == 0 {
        start
    } else {
        lerp_iter(lerp_spec(start, target, alpha), target, alpha, (k - 1) as nat)
    }
}

/// Steady-state convergence: blending toward a fixed target at a positive
/// rate reaches the target exactly, once the number of ticks covers the
/// initial gap. Each tick shrinks the gap by at least one unit.
pub proof fn lemma_lerp_converges(start: int, target: int, alpha: int, k: nat)
    requires
        0 < alpha <= SCALE,
        k >= (if target >= start {
            target - start
        } else {
            start - target
        }),
    ensures
        lerp_iter(start, target, alpha, k) == target,
    decreases k,
{
    if start == target {
        assert(lerp_spec(start, target, alpha) == start) by {
            lemma_small_mod(0, SCALE as nat);
        }
        if k > 0 {
            lemma_lerp_converges(start, target, alpha, (k - 1) as nat);
        }
    } else {
        lemma_lerp_progress(start, target, alpha);
        lemma_lerp_converges(lerp_spec(start, target, alpha), target, alpha, (k - 1) as nat);
    }
}

/// Smoothing bounds: with a factor strictly inside `(0, SCALE)` and a gap
/// wide enough that one rounded step cannot cover it, the blended value lies
/// strictly between the old value and the target.
pub proof fn lemma_lerp_strictly_between(start: int, target: int, alpha: int)
    requires
        0 < alpha < SCALE,
        start != target,
        (if target >= start { target - start } else { start - target }) * (SCALE - alpha) >= SCALE,
    ensures
        start < target ==> start < lerp_spec(start, target, alpha) < target,
        target < start ==> target < lerp_spec(start, target, alpha) < start,
{
    let s = SCALE as int;
    let d = target - start;
    let m = d * alpha;
    lemma_lerp_progress(start, target, alpha);
    if d > 0 {
        assert(m <= (d - 1) * s) by (nonlinear_arith)
            requires d >= 1 && 0 < alpha < s && d * (s - alpha) >= s && m == d * alpha;
        lemma_fundamental_div_mod(m, s);
        lemma_mod_division_less_than_divisor(m, s);
        if m % s == 0 {
            assert(m / s <= d - 1) by (nonlinear_arith)
                requires s > 0 && m == s * (m / s) + m % s && 0 <= m % s < s && m <= (d - 1) * s;
        } else {
            assert(m / s + 1 <= d - 1 || m / s + 1 == d - 1 + 1 && m > (d - 1) * s) by (nonlinear_arith)
                requires s > 0 && m == s * (m / s) + m % s && 0 < m % s < s && m <= (d - 1) * s;
            assert(m / s + 1 <= d - 1) by (nonlinear_arith)
                requires s > 0 && m == s * (m / s) + m % s && 0 < m % s < s && m <= (d - 1) * s;
        }
    } else {
        assert(m >= (d + 1) * s) by (nonlinear_arith)
            requires d <= -1 && 0 < alpha < s && (-d) * (s - alpha) >= s && m == d * alpha;
        lemma_fundamental_div_mod(m, s);
        lemma_mod_division_less_than_divisor(m, s);
        assert(m / s >= d + 1) by (nonlinear_arith)
            requires s > 0 && m == s * (m / s) + m % s && 0 <= m % s < s && m >= (d + 1) * s;
    }
}

/// Blend `start` toward `target` by `alpha / SCALE` of the gap, the step
/// rounded away from zero. The result never leaves the closed interval
/// between `start` and `target`.
pub fn lerp(start: i64, target: i64, alpha: i64) -> (r: i64)
    requires
        -LERP_MAX <= start <= LERP_MAX,
        -LERP_MAX <= target <= LERP_MAX,
        0 <= alpha <= SCALE,
    ensures
        r == lerp_spec(start as int, target as int, alpha as int),
        start <= target ==> start <= r <= target,
        target <= start ==> target <= r <= start,
{
    proof {
        lemma_lerp_bounds(start as int, target as int, alpha as int);
    }
    let diff = target - start;
    let num = diff * alpha;
    let step = if num >= 0 {
        proof {
            lemma_div_ceil(num as int, SCALE as int);
        }
        (num + SCALE - 1) / SCALE
    } else {
        proof {
            lemma_div_away_neg(num as int, SCALE as int);
        }
        -((-num + SCALE - 1) / SCALE)
    };
    start + step
}

/// A nonnegative value below `b * c` divides by `b` to below `c`.
pub proof fn lemma_div_below(a: int, b: int, c: int)
    requires
        b > 0,
        0 <= a,
        a < b * c,
    ensures
        0 <= a / b < c,
{
    lemma_fundamental_div_mod(a, b);
    lemma_mod_division_less_than_divisor(a, b);
    assert(0 <= a / b < c) by (nonlinear_arith)
        requires
            b > 0,
            a == b * (a / b) + a % b,
            0 <= a % b < b,
            0 <= a < b * c;
}

/// Truncating division of a value bounded by `b * v` stays bounded by `v`:
/// an average of contributions keeps their bound.
pub proof fn lemma_div_trunc_bound(a: int, b: int, v: int)
    requires
        b > 0,
        0 <= v,
        -(b * v) <= a <= b * v,
    ensures
        -v <= div_trunc(a, b) <= v,
{
    if a >= 0 {
        lemma_fundamental_div_mod(a, b);
        lemma_mod_division_less_than_divisor(a, b);
        assert(0 <= a / b <= v) by (nonlinear_arith)
            requires
                b > 0,
                a == b * (a / b) + a % b,
                0 <= a % b < b,
                0 <= a <= b * v;
    } else {
        lemma_fundamental_div_mod(-a, b);
        lemma_mod_division_less_than_divisor(-a, b);
        assert(0 <= (-a) / b <= v) by (nonlinear_arith)
            requires
                b > 0,
                -a == b * ((-a) / b) + (-a) % b,
                0 <= (-a) % b < b,
                0 < -a <= b * v;
    }
}

/// The integer square root: the largest integer whose square does not
/// exceed `n`.
pub open spec fn sqrt_floor(n: nat) -> nat
    decreases n,
{
    if n == 0 {
        0
    } else {
        let r = sqrt_floor((n - 1) as nat);
        if (r + 1) * (r + 1) <= n {
            r + 1
        } else {
            r
        }
    }
}

/// `sqrt_floor(n)` is characterized by its two square bounds.
pub proof fn lemma_sqrt_floor_bounds(n: nat)
    ensures
        sqrt_floor(n) * sqrt_floor(n) <= n,
        n < (sqrt_floor(n) + 1) * (sqrt_floor(n) + 1),
    decreases n,
{
    if n == 0 {
        assert(sqrt_floor(0) == 0);
        assert((sqrt_floor(n) + 1) * (sqrt_floor(n) + 1) == 1) by (nonlinear_arith)
            requires sqrt_floor(n) == 0;
    } else {
        lemma_sqrt_floor_bounds((n - 1) as nat);
        let r = sqrt_floor((n - 1) as nat);
        if (r + 1) * (r + 1) <= n {
            assert(sqrt_floor(n) == r + 1);
            assert(n < (r + 2) * (r + 2)) by (nonlinear_arith)
                requires n <= (r + 1) * (r + 1);
            assert(sqrt_floor(n) * sqrt_floor(n) <= n);
            assert(n < (sqrt_floor(n) + 1) * (sqrt_floor(n) + 1));
        } else {
            assert(sqrt_floor(n) == r);
            assert(sqrt_floor(n) * sqrt_floor(n) <= n);
            assert(n < (sqrt_floor(n) + 1) * (sqrt_floor(n) + 1));
        }
    }
}

/// Any integer between the square bounds is the square root itself.
pub proof fn lemma_sqrt_floor_unique(n: nat, r: nat)
    requires
        r * r <= n,
        n < (r + 1) * (r + 1),
    ensures
        r == sqrt_floor(n),
{
    lemma_sqrt_floor_bounds(n);
    let q = sqrt_floor(n);
    assert(r == q) by (nonlinear_arith)
        requires
            r * r <= n < (r + 1) * (r + 1),
            q * q <= n < (q + 1) * (q + 1);
}

/// The integer square root, by binary search.
pub fn isqrt(n: u64) -> (r: u64)
    ensures
        r == sqrt_floor(n as nat),
        r < 0x1_0000_0000,
{
    let mut lo: u64 = 0;
    let mut hi: u64 = 0xffff_ffff;
    while lo < hi
        invariant
            lo <= hi < 0x1_0000_0000,
            lo * lo <= n,
            n < (hi + 1) * (hi + 1),
        decreases hi - lo,
    {
        let mid = lo + (hi - lo + 1) / 2;
        proof {
            assert(mid * mid <= 0xffff_fffe_0000_0001) by (nonlinear_arith)
                requires mid <= 0xffff_ffff;
        }
        if mid * mid <= n {
            lo = mid;
        } else {
            hi = mid - 1;
        }
    }
    proof {
        lemma_sqrt_floor_unique(n as nat, lo as nat);
    }
    lo
}

/// The straight-line distance between two points, rounded down to whole
/// units.
pub fn pythag_dist(x1: i64, y1: i64, x2: i64, y2: i64) -> (r: i64)
    requires
        -2_000_000_000 <= x2 - x1 <= 2_000_000_000,
        -2_000_000_000 <= y2 - y1 <= 2_000_000_000,
    ensures
        r == sqrt_floor(((x2 - x1) * (x2 - x1) + (y2 - y1) * (y2 - y1)) as nat),
{
    let xd = x2 - x1;
    let yd = y2 - y1;
    proof {
        assert(0 <= xd * xd <= 4_000_000_000_000_000_000 && 0 <= yd * yd
            <= 4_000_000_000_000_000_000) by (nonlinear_arith)
            requires -2_000_000_000 <= xd <= 2_000_000_000 && -2_000_000_000 <= yd
                <= 2_000_000_000;
    }
    let sq = (xd * xd) as u64 + (yd * yd) as u64;
    let r = isqrt(sq);
    r as i64
}

/// Wrap a coordinate toroidally into `[0, extent)` by repeated addition or
/// subtraction of the extent; any overshoot is supported.
pub fn wrap_coord(x0: i64, extent: i64) -> (r: i64)
    requires
        0 < extent,
    ensures
        0 <= r < extent,
        r == wrap_spec(x0 as int, extent as int),
{
    let mut x = x0;
    while x < 0
        invariant
            0 < extent,
            x as int % extent as int == x0 as int % extent as int,
        decreases (if x < 0 { -(x as int) } else { 0int }),
    {
        proof {
            lemma_mod_add_multiples_vanish(x as int, extent as int);
        }
        x = x + extent;
    }
    while x >= extent
        invariant
            0 < extent,
            0 <= x,
            x as int % extent as int == x0 as int % extent as int,
        decreases x,
    {
        proof {
            lemma_mod_sub_multiples_vanish(x as int, extent as int);
        }
        x = x - extent;
    }
    proof {
        lemma_small_mod(x as nat, extent as nat);
    }
    x
}

} // verus!
