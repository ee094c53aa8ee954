//! Fixed-point sine and cosine of a milliradian heading, by Bhaskara's
//! rational approximation on each half turn. Accurate to a few units per
//! thousand — ample for steering a boat — and exactly reproducible, unlike
//! a float library call.

use vstd::prelude::*;
use crate::config::{HALF_PI_MRAD, PI_MRAD, SCALE, TAU_MRAD};
use crate::fixed::lemma_div_below;
use vstd::arithmetic::div_mod::lemma_fundamental_div_mod;

verus! {

/// Bhaskara's approximation of `SCALE * sin(x)` for `x` in `[0, PI_MRAD]`
/// milliradians: `16 x (pi - x) / (5 pi^2 - 4 x (pi - x))`, scaled.
pub open spec fn bhaskara_half(x: int) -> int {
    (SCALE * (16 * x * (PI_MRAD - x))) / (5 * PI_MRAD * PI_MRAD - 4 * x * (PI_MRAD - x))
}

/// Fixed-point sine of an angle in `[0, TAU_MRAD)` milliradians: Bhaskara's
/// approximation on the first half turn, its odd mirror on the second.
pub open spec fn sin_mrad_spec(a: int) -> int {
    if a <= PI_MRAD {
        bhaskara_half(a)
    } else {
        -bhaskara_half(a - PI_MRAD)
    }
}

/// Fixed-point cosine: the sine a quarter turn ahead.
pub open spec fn cos_mrad_spec(a: int) -> int {
    sin_mrad_spec((a + HALF_PI_MRAD) % (TAU_MRAD as int))
}

/// Bhaskara's numerator never exceeds its denominator, so the approximation
/// stays within `[0, SCALE]`.
proof fn lemma_bhaskara_bounds(x: int)
    requires
        0 <= x <= PI_MRAD,
    ensures
        0 <= bhaskara_half(x) <= SCALE,
{
    let g = x * (PI_MRAD - x);
    let n = SCALE * (16 * g);
    let d = 5 * PI_MRAD * PI_MRAD - 4 * g;
    assert(0 <= g && 4 * g <= PI_MRAD * PI_MRAD) by (nonlinear_arith)
        requires 0 <= x <= PI_MRAD && g == x * (PI_MRAD - x);
    assert(d >= 4 * PI_MRAD * PI_MRAD);
    assert(n == SCALE * (16 * x * (PI_MRAD - x)) && d == 5 * PI_MRAD * PI_MRAD - 4 * x * (
    PI_MRAD - x)) by (nonlinear_arith)
        requires
            g == x * (PI_MRAD - x),
            n == SCALE * (16 * g),
            d == 5 * PI_MRAD * PI_MRAD - 4 * g;
    assert(n < d * (SCALE + 1)) by (nonlinear_arith)
        requires
            n == SCALE * (16 * g),
            0 <= g,
            4 * g <= PI_MRAD * PI_MRAD,
            d >= 4 * PI_MRAD * PI_MRAD;
    lemma_div_below(n, d, SCALE + 1);
}

/// Fixed-point sine of a milliradian angle, `SCALE` standing for one.
pub fn sin_mrad(angle: i64) -> (r: i64)
    requires
        0 <= angle < TAU_MRAD,
    ensures
        r == sin_mrad_spec(angle as int),
        -SCALE <= r <= SCALE,
{
    let x = if angle <= PI_MRAD {
        angle
    } else {
        angle - PI_MRAD
    };
    proof {
        lemma_bhaskara_bounds(x as int);
        assert(0 <= (x as int) * (PI_MRAD - x as int) <= PI_MRAD * PI_MRAD) by (
        nonlinear_arith)
            requires 0 <= x as int <= PI_MRAD;
    }
    let g = x * (PI_MRAD - x);
    let n = SCALE * (16 * g);
    let d = 5 * PI_MRAD * PI_MRAD - 4 * g;
    proof {
        assert(n as int == SCALE * (16 * (x as int) * (PI_MRAD - x as int)) && d as int == 5
            * PI_MRAD * PI_MRAD - 4 * (x as int) * (PI_MRAD - x as int)) by (nonlinear_arith)
            requires
                g == (x as int) * (PI_MRAD - x as int),
                n == SCALE * (16 * (g as int)),
                d == 5 * PI_MRAD * PI_MRAD - 4 * (g as int);
    }
    let half = n / d;
    if angle <= PI_MRAD {
        half
    } else {
        -half
    }
}

/// Fixed-point cosine of a milliradian angle, `SCALE` standing for one.
pub fn cos_mrad(angle: i64) -> (r: i64)
    requires
        0 <= angle < TAU_MRAD,
    ensures
        r == cos_mrad_spec(angle as int),
        -SCALE <= r <= SCALE,
{
    let shifted = if angle + HALF_PI_MRAD >= TAU_MRAD {
        angle + HALF_PI_MRAD - TAU_MRAD
    } else {
        angle + HALF_PI_MRAD
    };
    proof {
        if angle + HALF_PI_MRAD >= TAU_MRAD {
            assert((angle + HALF_PI_MRAD) % (TAU_MRAD as int) == shifted) by {
                lemma_fundamental_div_mod((angle + HALF_PI_MRAD) as int, TAU_MRAD as int);
                vstd::arithmetic::div_mod::lemma_fundamental_div_mod_converse_mod(
                    (angle + HALF_PI_MRAD) as int,
                    TAU_MRAD as int,
                    1,
                    shifted as int,
                );
            }
        } else {
            vstd::arithmetic::div_mod::lemma_small_mod(
                (angle + HALF_PI_MRAD) as nat,
                TAU_MRAD as nat,
            );
        }
    }
    sin_mrad(shifted)
}

} // verus!
