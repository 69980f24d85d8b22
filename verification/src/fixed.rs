//! Fixed-point arithmetic for the animation core.
//!
//! One spatial unit (the width of one grid cell) is `SCALE` ticks of an
//! `i64`.  Rotations are measured in the same ticks of a radian.  Working
//! on integers keeps every tick of the animation exact: the verifier can
//! speak about the precise value of every offset and velocity.

use vstd::prelude::*;

verus! {

/// Number of fixed-point ticks in one unit (one grid-cell width, or one radian).
pub const SCALE: i64 = 1_000_000;

/// `pi / 4` in fixed-point ticks: the half-width of the rotation draw.
pub const QUARTER_PI: i64 = 785_398;

/// Half-width of a target-offset draw in the static field, in ticks (0.5 units).
pub const STATIC_SPREAD: i64 = 500_000;

/// Half-width of a target-offset draw in the animated field, in ticks (5.5 units).
///
/// The two spreads differ on purpose: the static field scatters stones within
/// their own cell, while the animated field lets them wander well outside it.
pub const ANIM_SPREAD: i64 = 5_500_000;

/// Largest value a gain can take, in ticks (1000 units).  Gains saturate here.
pub const GAIN_MAX: i64 = 1_000_000_000;

/// One keyboard step of a gain, in ticks (0.1 units).
pub const GAIN_STEP: i64 = 100_000;

/// Largest magnitude an offset component can reach:
/// `(GAIN_MAX / SCALE) * ANIM_SPREAD`.
pub const OFFSET_MAX: i64 = 5_500_000_000;

/// Largest magnitude a rotation can reach: `(GAIN_MAX / SCALE) * QUARTER_PI`.
pub const ROTATION_MAX: i64 = 785_398_000;

/// Smallest phase duration, in ticks of the simulation clock.
pub const CYCLES_MIN: u32 = 50;

/// All phase durations are strictly below this bound.
pub const CYCLES_MAX: u32 = 300;

/// Largest magnitude an offset velocity can take: `2 * OFFSET_MAX / CYCLES_MIN`.
pub const VELOCITY_MAX: i64 = 220_000_000;

/// Largest magnitude a rotation velocity can take: `2 * ROTATION_MAX / CYCLES_MIN`.
pub const ROT_VELOCITY_MAX: i64 = 31_415_920;

/// The motion probability `1.0` in fixed-point ticks.
pub const MOTION_ONE: i64 = 1_000_000;

/// Seeds drawn on a reseed request lie below this bound.
pub const SEED_RANGE: u64 = 1_000_000;

/// Division of `a` by a positive `d`, rounded toward zero, as Rust's `/`
/// rounds.  (The spec-level `/` rounds toward negative infinity.)
pub open spec fn div_tz(a: int, d: int) -> int {
    if a >= 0 {
        a / d
    } else {
        -((-a) / d)
    }
}

/// `q = div_tz(a, d)` never overshoots `a`: `q * d` lies between `0` and `a`,
/// and misses `a` by less than `d`.
pub proof fn lemma_div_tz_bounds(a: int, d: int)
    requires
        d > 0,
    ensures
        a >= 0 ==> 0 <= div_tz(a, d) * d <= a,
        a < 0 ==> a <= div_tz(a, d) * d <= 0,
        a - d < div_tz(a, d) * d < a + d,
{
    if a >= 0 {
        let q = a / d;
        vstd::arithmetic::div_mod::lemma_fundamental_div_mod(a, d);
        vstd::arithmetic::div_mod::lemma_div_pos_is_pos(a, d);
        assert(q * d >= 0) by (nonlinear_arith)
            requires
                q >= 0,
                d > 0,
        ;
    } else {
        let n = -a;
        let q = n / d;
        let qa = div_tz(a, d);
        vstd::arithmetic::div_mod::lemma_fundamental_div_mod(n, d);
        vstd::arithmetic::div_mod::lemma_div_pos_is_pos(n, d);
        assert(qa * d == -(q * d) && q * d >= 0) by (nonlinear_arith)
            requires
                qa == -q,
                q >= 0,
                d > 0,
        ;
    }
}

/// Truncating division of `a: i64` by a positive `d`, exactly `div_tz`.
pub fn div_toward_zero(a: i64, d: i64) -> (q: i64)
    requires
        d > 0,
        a > i64::MIN,
    ensures
        q == div_tz(a as int, d as int),
{
    if a >= 0 {
        proof {
            lemma_div_tz_bounds(a as int, d as int);
            vstd::arithmetic::div_mod::lemma_div_nonincreasing(a as int, d as int);
            vstd::arithmetic::div_mod::lemma_div_pos_is_pos(a as int, d as int);
        }
        ((a as u64) / (d as u64)) as i64
    } else {
        let n = -a;
        proof {
            lemma_div_tz_bounds(-a as int, d as int);
            vstd::arithmetic::div_mod::lemma_div_nonincreasing(-a as int, d as int);
            vstd::arithmetic::div_mod::lemma_div_pos_is_pos(-a as int, d as int);
        }
        let m = ((n as u64) / (d as u64)) as i64;
        -m
    }
}

/// Fixed-point product of two non-negative values: `(a * b) / SCALE`,
/// rounded down.
pub open spec fn scale_mul(a: int, b: int) -> int {
    (a * b) / (SCALE as int)
}

/// The fixed-point product of bounded non-negative factors is itself
/// bounded: `scale_mul(a, b) <= (bound_a * bound_b) / SCALE`.
pub proof fn lemma_scale_mul_bound(a: int, b: int, bound_a: int, bound_b: int)
    requires
        0 <= a <= bound_a,
        0 <= b <= bound_b,
    ensures
        0 <= scale_mul(a, b) <= (bound_a * bound_b) / (SCALE as int),
{
    assert(0 <= a * b <= bound_a * bound_b) by (nonlinear_arith)
        requires
            0 <= a <= bound_a,
            0 <= b <= bound_b,
    ;
    vstd::arithmetic::div_mod::lemma_div_pos_is_pos(a * b, SCALE as int);
    vstd::arithmetic::div_mod::lemma_div_is_ordered(a * b, bound_a * bound_b, SCALE as int);
}

/// Fixed-point multiply of non-negative values, exactly `scale_mul`.
pub fn scaled_mul(a: i64, b: i64) -> (r: i64)
    requires
        0 <= a,
        0 <= b,
        a * b <= i64::MAX,
    ensures
        r == scale_mul(a as int, b as int),
        0 <= r,
        r <= a * b,
{
    let p = a * b;
    proof {
        vstd::arithmetic::div_mod::lemma_div_pos_is_pos(p as int, SCALE as int);
        vstd::arithmetic::div_mod::lemma_div_nonincreasing(p as int, SCALE as int);
    }
    ((p as u64) / (SCALE as u64)) as i64
}

} // verus!
