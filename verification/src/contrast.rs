//! Colour contrast in exact integer arithmetic.
//!
//! The contrast of two colours is the ratio of their relative luminances, each
//! raised by 0.05. Relative luminance weighs the linear-light intensities of the
//! three channels. All quantities here are fixed-point numbers, so every result
//! is the same on every machine.

use vstd::prelude::*;
use crate::linear::{lemma_linear_levels, linear_level, LINEAR_LEVELS, SCALE};

verus! {

/// Weight of the red channel in a luminance, in ten-thousandths.
pub const RED_WEIGHT: u64 = 2_126;

/// Weight of the green channel in a luminance, in ten-thousandths.
pub const GREEN_WEIGHT: u64 = 7_152;

/// Weight of the blue channel in a luminance, in ten-thousandths.
pub const BLUE_WEIGHT: u64 = 722;

/// The least contrast ratio that is accepted, in thousandths.
pub const MIN_CONTRAST_MILLI: u32 = 3_000;

/// The relative luminance of a colour, in units of `1 / (10000 * SCALE)`.
pub open spec fn luminance(rgb: (u8, u8, u8)) -> int {
    RED_WEIGHT * linear_level(rgb.0) + GREEN_WEIGHT * linear_level(rgb.1) + BLUE_WEIGHT
        * linear_level(rgb.2)
}

/// The amount 0.05 that is added to each luminance, in units of `1 / (10000 * SCALE)`.
pub open spec fn flare() -> int {
    500 * SCALE
}

/// The contrast ratio of two colours in thousandths, rounded down: the lighter
/// luminance plus 0.05, over the darker luminance plus 0.05.
pub open spec fn contrast_milli(a: (u8, u8, u8), b: (u8, u8, u8)) -> int {
    let la = luminance(a);
    let lb = luminance(b);
    if la > lb {
        (1_000 * (la + flare())) / (lb + flare())
    } else {
        (1_000 * (lb + flare())) / (la + flare())
    }
}

/// Whether two colours are at least three to one in contrast.
pub open spec fn sufficient_contrast(a: (u8, u8, u8), b: (u8, u8, u8)) -> bool {
    contrast_milli(a, b) >= MIN_CONTRAST_MILLI
}

/// A luminance lies between 0 and 1.
pub proof fn lemma_luminance_range(rgb: (u8, u8, u8))
    ensures
        0 <= luminance(rgb) <= 10_000 * SCALE,
{
    lemma_linear_levels(rgb.0);
    lemma_linear_levels(rgb.1);
    lemma_linear_levels(rgb.2);
}

/// The quotient of two raised luminances, the larger over the smaller, lies
/// between 1 and 21, counted in thousandths.
proof fn lemma_ratio_range(hi: int, lo: int, flare: int)
    requires
        0 <= lo <= hi <= 20 * flare,
        flare > 0,
    ensures
        1_000 <= (1_000 * (hi + flare)) / (lo + flare) <= 21_000,
{
    let x = 1_000 * (hi + flare);
    let y = lo + flare;
    let q = x / y;
    assert(x == y * q + x % y && 0 <= x % y < y) by (nonlinear_arith)
        requires
            y > 0,
            q == x / y,
    ;
    if q < 1_000 {
        assert(y * q <= y * 999) by (nonlinear_arith)
            requires
                y > 0,
                q <= 999,
        ;
    }
    if q > 21_000 {
        assert(y * q >= y * 21_001) by (nonlinear_arith)
            requires
                y > 0,
                q >= 21_001,
        ;
    }
}

/// The contrast ratio of any two colours lies between 1 and 21.
pub proof fn lemma_contrast_range(a: (u8, u8, u8), b: (u8, u8, u8))
    ensures
        1_000 <= contrast_milli(a, b) <= 21_000,
{
    lemma_luminance_range(a);
    lemma_luminance_range(b);
    let la = luminance(a);
    let lb = luminance(b);
    if la > lb {
        lemma_ratio_range(la, lb, flare());
    } else {
        lemma_ratio_range(lb, la, flare());
    }
}

/// Contrast does not depend on which colour is named first.
pub proof fn lemma_contrast_symmetric(a: (u8, u8, u8), b: (u8, u8, u8))
    ensures
        contrast_milli(a, b) == contrast_milli(b, a),
{
}

/// A colour has no contrast with itself: the ratio is exactly 1, which is not enough.
pub proof fn lemma_no_contrast_with_itself(a: (u8, u8, u8))
    ensures
        contrast_milli(a, a) == 1_000,
        !sufficient_contrast(a, a),
{
    lemma_luminance_range(a);
    let y = luminance(a) + flare();
    assert((1_000 * y) / y == 1_000) by (nonlinear_arith)
        requires
            y > 0,
    ;
}

/// Computes the relative luminance of a colour.
pub fn luminance_of(rgb: (u8, u8, u8)) -> (l: u128)
    ensures
        l == luminance(rgb),
{
    let r: u128 = LINEAR_LEVELS[rgb.0 as usize] as u128;
    let g: u128 = LINEAR_LEVELS[rgb.1 as usize] as u128;
    let b: u128 = LINEAR_LEVELS[rgb.2 as usize] as u128;
    proof {
        lemma_linear_levels(rgb.0);
        lemma_linear_levels(rgb.1);
        lemma_linear_levels(rgb.2);
    }
    let red: u128 = RED_WEIGHT as u128;
    let green: u128 = GREEN_WEIGHT as u128;
    let blue: u128 = BLUE_WEIGHT as u128;
    assert(red * r <= 2_126 * SCALE && green * g <= 7_152 * SCALE && blue * b <= 722 * SCALE)
        by (nonlinear_arith)
        requires
            red == 2_126,
            green == 7_152,
            blue == 722,
            r <= SCALE,
            g <= SCALE,
            b <= SCALE,
    ;
    red * r + green * g + blue * b
}

/// Computes the contrast ratio of two colours, in thousandths.
pub fn contrast_ratio_of(a: (u8, u8, u8), b: (u8, u8, u8)) -> (ratio: u32)
    ensures
        ratio == contrast_milli(a, b),
        1_000 <= ratio <= 21_000,
{
    proof {
        lemma_luminance_range(a);
        lemma_luminance_range(b);
        lemma_contrast_range(a, b);
    }
    let la = luminance_of(a);
    let lb = luminance_of(b);
    let flare: u128 = 500 * (SCALE as u128);
    let ratio = if la > lb {
        (1_000 * (la + flare)) / (lb + flare)
    } else {
        (1_000 * (lb + flare)) / (la + flare)
    };
    ratio as u32
}

/// Decides whether two colours are at least three to one in contrast.
pub fn is_sufficient_contrast(a: (u8, u8, u8), b: (u8, u8, u8)) -> (enough: bool)
    ensures
        enough == sufficient_contrast(a, b),
{
    contrast_ratio_of(a, b) >= MIN_CONTRAST_MILLI
}

} // verus!
