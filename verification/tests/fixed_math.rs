//! Exact-value tests of the fixed-point arithmetic core.

use particle_man::config::{HEIGHT, SCALE, WIDTH};
use particle_man::fixed::{isqrt, lerp, pythag_dist, wrap_coord};
use particle_man::trig::{cos_mrad, sin_mrad};

#[test]
fn lerp_moves_ten_percent_of_the_gap() {
    // alpha 100/1000: a gap of 1000 moves by exactly 100.
    assert_eq!(lerp(0, 1000, 100), 100);
    assert_eq!(lerp(1000, 0, 100), 900);
    assert_eq!(lerp(-500, 500, 100), -400);
}

#[test]
fn lerp_rounds_its_step_away_from_zero() {
    // A gap of 5 at alpha 0.1 steps by ceil(0.5) = 1, not 0.
    assert_eq!(lerp(0, 5, 100), 1);
    assert_eq!(lerp(5, 0, 100), 4);
    assert_eq!(lerp(0, -5, 100), -1);
}

#[test]
fn lerp_endpoints() {
    // alpha 0 stays, alpha SCALE lands on the target.
    assert_eq!(lerp(123, 456, 0), 123);
    assert_eq!(lerp(123, 456, SCALE), 456);
    assert_eq!(lerp(7, 7, 300), 7);
}

#[test]
fn lerp_never_overshoots() {
    for alpha in [1, 30, 100, 999, 1000] {
        let r = lerp(-250, 775, alpha);
        assert!((-250..=775).contains(&r));
        let r = lerp(775, -250, alpha);
        assert!((-250..=775).contains(&r));
    }
}

#[test]
fn repeated_lerp_converges_exactly() {
    // Away-from-zero rounding closes any gap completely.
    let mut v: i64 = 0;
    for _ in 0..200 {
        v = lerp(v, 1000, 100);
    }
    assert_eq!(v, 1000);
}

#[test]
fn wrap_handles_any_overshoot() {
    assert_eq!(wrap_coord(0, WIDTH), 0);
    assert_eq!(wrap_coord(WIDTH, WIDTH), 0);
    assert_eq!(wrap_coord(WIDTH - 1, WIDTH), WIDTH - 1);
    assert_eq!(wrap_coord(-1, WIDTH), WIDTH - 1);
    assert_eq!(wrap_coord(-100, WIDTH), WIDTH - 100);
    // several domain widths in one tick
    assert_eq!(wrap_coord(3 * WIDTH + 7, WIDTH), 7);
    assert_eq!(wrap_coord(-5 * HEIGHT - 3, HEIGHT), HEIGHT - 3);
}

#[test]
fn isqrt_exact_values() {
    assert_eq!(isqrt(0), 0);
    assert_eq!(isqrt(1), 1);
    assert_eq!(isqrt(15), 3);
    assert_eq!(isqrt(16), 4);
    assert_eq!(isqrt(1_000_000), 1000);
    assert_eq!(isqrt(u64::MAX), 4_294_967_295);
}

#[test]
fn pythag_dist_right_triangle() {
    assert_eq!(pythag_dist(0, 0, 3, 4), 5);
    assert_eq!(pythag_dist(10, 20, 10, 20), 0);
    assert_eq!(pythag_dist(-3, 0, 0, -4), 5);
    // rounded down between perfect squares
    assert_eq!(pythag_dist(0, 0, 1, 1), 1);
}

#[test]
fn trig_cardinal_points() {
    // SCALE stands for one; 1571 mrad is a quarter turn.
    assert_eq!(sin_mrad(0), 0);
    assert_eq!(sin_mrad(1571), 1000);
    assert_eq!(cos_mrad(0), 1000);
    assert_eq!(cos_mrad(1571 + 3142), 0);
    assert_eq!(sin_mrad(1571 + 3142), -1000);
}

#[test]
fn trig_stays_within_one() {
    let mut a: i64 = 0;
    while a < 6284 {
        let s = sin_mrad(a);
        let c = cos_mrad(a);
        assert!((-1000..=1000).contains(&s));
        assert!((-1000..=1000).contains(&c));
        a += 1;
    }
}
