//! Sampling of transition targets.
//!
//! A stone's target offset and rotation are a random draw scaled by two
//! non-negative factors: the *row factor* (zero on the top row, growing
//! toward the bottom — the chaos gradient of the artwork) and the gain the
//! user dialed in.  Everything rounds toward zero, so a zero factor pins
//! the target to exactly zero.

use vstd::prelude::*;

use crate::fixed::ANIM_SPREAD;
use crate::fixed::GAIN_MAX;
use crate::fixed::SCALE;
use crate::fixed::scale_mul;
use crate::fixed::scaled_mul;
use crate::fixed::lemma_scale_mul_bound;
use vstd::math::abs;

verus! {

/// The row factor `row / rows` in fixed-point ticks: `0` on row `0`,
/// strictly below `SCALE` everywhere.
pub open spec fn row_factor(row: int, rows: int) -> int {
    row * SCALE / rows
}

/// Compute the row factor of a row of the grid.
pub fn compute_row_factor(row: u32, rows: u32) -> (f: i64)
    requires
        rows >= 1,
        row < rows,
    ensures
        f == row_factor(row as int, rows as int),
        0 <= f < SCALE,
        row == 0 ==> f == 0,
{
    let num: i64 = (row as i64) * SCALE;
    proof {
        vstd::arithmetic::div_mod::lemma_div_pos_is_pos(num as int, rows as int);
        assert(num < rows as int * SCALE) by (nonlinear_arith)
            requires
                num == row as int * SCALE,
                row < rows,
        ;
        vstd::arithmetic::div_mod::lemma_multiply_divide_lt(
            num as int,
            rows as int,
            SCALE as int,
        );
        if row == 0 {
            vstd::arithmetic::div_mod::lemma_div_of0(rows as int);
        }
    }
    ((num as u64) / (rows as u64)) as i64
}

/// The sampled target component for a row factor, a gain and a signed
/// draw: `factor * gain * draw / SCALE^2`, rounded toward zero.
pub open spec fn target_component(factor: int, gain: int, draw: int) -> int {
    let strength = scale_mul(factor, gain);
    if draw >= 0 {
        scale_mul(strength, draw)
    } else {
        -scale_mul(strength, -draw)
    }
}

/// Compute a target component from a draw in `[-spread, spread)`.
///
/// The result is bounded by `(GAIN_MAX / SCALE) * spread`, is exactly zero
/// on the top row (`factor == 0`), and never flips the draw's sign.
pub fn sample_component(factor: i64, gain: i64, draw: i64, spread: i64) -> (t: i64)
    requires
        0 <= factor < SCALE,
        0 <= gain <= GAIN_MAX,
        1 <= spread <= ANIM_SPREAD,
        -spread <= draw <= spread,
    ensures
        t == target_component(factor as int, gain as int, draw as int),
        -(GAIN_MAX / SCALE) * spread <= t <= (GAIN_MAX / SCALE) * spread,
        factor == 0 ==> t == 0,
        gain == 0 ==> t == 0,
        draw >= 0 ==> t >= 0,
        draw <= 0 ==> t <= 0,
{
    proof {
        lemma_scale_mul_bound(factor as int, gain as int, SCALE as int, GAIN_MAX as int);
        assert(factor as int * gain as int <= i64::MAX) by (nonlinear_arith)
            requires
                0 <= factor < SCALE,
                0 <= gain <= GAIN_MAX,
        ;
    }
    let strength: i64 = scaled_mul(factor, gain);
    let mag: i64 = if draw >= 0 {
        draw
    } else {
        -draw
    };
    proof {
        lemma_scale_mul_bound(strength as int, mag as int, GAIN_MAX as int, spread as int);
        assert(strength as int * mag as int <= i64::MAX) by (nonlinear_arith)
            requires
                0 <= strength <= GAIN_MAX,
                0 <= mag <= spread <= ANIM_SPREAD,
        ;
        assert((GAIN_MAX as int * spread as int) / (SCALE as int) == (GAIN_MAX / SCALE)
            * spread) by (nonlinear_arith)
            requires
                1 <= spread,
        ;
        if draw == 0 {
            assert(strength as int * 0 == 0) by (nonlinear_arith);
            vstd::arithmetic::div_mod::lemma_div_of0(SCALE as int);
        }
        if factor == 0 || gain == 0 {
            assert(factor as int * gain as int == 0) by (nonlinear_arith)
                requires
                    factor == 0 || gain == 0,
            ;
            vstd::arithmetic::div_mod::lemma_div_of0(SCALE as int);
            assert(scale_mul(factor as int, gain as int) == 0);
            assert(0 * mag as int == 0) by (nonlinear_arith);
        }
    }
    let m: i64 = scaled_mul(strength, mag);
    if draw >= 0 {
        m
    } else {
        -m
    }
}

/// The chaos gradient is monotone: for one gain and one draw, a row
/// factor no smaller samples a target of no smaller magnitude.
pub proof fn lemma_target_monotone_in_factor(f1: int, f2: int, gain: int, draw: int)
    requires
        0 <= f1 <= f2,
        0 <= gain,
    ensures
        abs(target_component(f1, gain, draw)) <= abs(target_component(f2, gain, draw)),
{
    assert(f1 * gain <= f2 * gain) by (nonlinear_arith)
        requires
            0 <= f1 <= f2,
            0 <= gain,
    ;
    assert(0 <= f1 * gain) by (nonlinear_arith)
        requires
            0 <= f1,
            0 <= gain,
    ;
    vstd::arithmetic::div_mod::lemma_div_is_ordered(f1 * gain, f2 * gain, SCALE as int);
    vstd::arithmetic::div_mod::lemma_div_pos_is_pos(f1 * gain, SCALE as int);
    let s1 = scale_mul(f1, gain);
    let s2 = scale_mul(f2, gain);
    let mag = if draw >= 0 {
        draw
    } else {
        -draw
    };
    assert(s1 * mag <= s2 * mag && 0 <= s1 * mag) by (nonlinear_arith)
        requires
            0 <= s1 <= s2,
            0 <= mag,
    ;
    vstd::arithmetic::div_mod::lemma_div_is_ordered(s1 * mag, s2 * mag, SCALE as int);
    vstd::arithmetic::div_mod::lemma_div_pos_is_pos(s1 * mag, SCALE as int);
}

/// Rows further down the grid have a row factor no smaller.
pub proof fn lemma_row_factor_monotone(r1: int, r2: int, rows: int)
    requires
        0 <= r1 <= r2,
        rows >= 1,
    ensures
        0 <= row_factor(r1, rows) <= row_factor(r2, rows),
{
    assert(0 <= r1 * SCALE <= r2 * SCALE) by (nonlinear_arith)
        requires
            0 <= r1 <= r2,
    ;
    vstd::arithmetic::div_mod::lemma_div_is_ordered(r1 * SCALE, r2 * SCALE, rows);
    vstd::arithmetic::div_mod::lemma_div_pos_is_pos(r1 * SCALE, rows);
}

} // verus!
