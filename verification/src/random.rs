//! The engine's source of randomness: the game library's pseudo-random
//! generator, behind one trusted wrapper.

use vstd::prelude::*;

verus! {

/// Relies on `macroquad::rand::gen_range` (quad_rand): it scales a raw
/// 32-bit draw into `[low, high)` through `f64` and truncates toward zero,
/// so for integer bounds well inside `f64`'s exact range every outcome lies
/// between `low` and `high` inclusive. Nothing more is assumed of a random
/// draw.
#[verifier::external_body]
pub(crate) fn random_in_range(low: i64, high: i64) -> (r: i64)
    requires
        -1_000_000_000 <= low,
        low < high,
        high <= 1_000_000_000,
    ensures
        low <= r <= high,
{
    macroquad::rand::gen_range(low, high)
}

} // verus!
