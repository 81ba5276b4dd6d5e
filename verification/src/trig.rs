//! Fixed-point sine for the bounce-angle computation.
//!
//! Angles are measured in millidegrees and the result is scaled by one
//! thousand. The rational approximation `sin x ~= 4x(180 - x) / (40500 - x(180
//! - x))` (for `x` in degrees) is exact at 0 and 90 degrees and stays within
//! two thousandths of the true sine in between, which is far below the
//! simulation's fixed-point resolution.

use vstd::prelude::*;

verus! {

/// Sine of `d` millidegrees, scaled by one thousand, for `0 <= d <= 90_000`.
pub open spec fn spec_sin_milli(d: int) -> int {
    (4000 * (d * (180_000 - d))) / (40_500_000_000 - d * (180_000 - d))
}

/// The quadratic `d * (180_000 - d)` stays within `[0, 8_100_000_000]` on the
/// sine's domain, peaking at 90 degrees.
proof fn lemma_sine_quadratic_range(d: int)
    requires
        0 <= d <= 90_000,
    ensures
        0 <= d * (180_000 - d) <= 8_100_000_000,
        d <= 75_000 ==> d * (180_000 - d) <= 7_875_000_000,
        d == 90_000 ==> d * (180_000 - d) == 8_100_000_000,
{
    assert(0 <= d * (180_000 - d) <= 8_100_000_000) by (nonlinear_arith)
        requires
            0 <= d <= 90_000,
    ;
    if d <= 75_000 {
        assert(d * (180_000 - d) <= 7_875_000_000) by (nonlinear_arith)
            requires
                0 <= d <= 75_000,
        ;
    }
}

/// On its domain the scaled sine stays within `[0, 1000]`, reaching 0 only at
/// 0 degrees and 1000 exactly at 90 degrees.
pub proof fn lemma_sin_milli_range(d: int)
    requires
        0 <= d <= 90_000,
    ensures
        0 <= spec_sin_milli(d) <= 1000,
        d == 0 ==> spec_sin_milli(d) == 0,
        d == 90_000 ==> spec_sin_milli(d) == 1000,
{
    lemma_sine_quadratic_range(d);
    let a = d * (180_000 - d);
    let num = 4000 * a;
    let den = 40_500_000_000 - a;
    vstd::arithmetic::div_mod::lemma_div_pos_is_pos(num, den);
    assert(num <= 1000 * den) by (nonlinear_arith)
        requires
            num == 4000 * a,
            den == 40_500_000_000 - a,
            a <= 8_100_000_000,
    ;
    lemma_div_le_factor(num, den, 1000);
    if d == 90_000 {
        assert(num == 1000 * den);
        vstd::arithmetic::div_mod::lemma_div_multiples_vanish(1000, den);
    }
}

/// Up to 75 degrees the scaled sine stays at or below 966, the fixed-point
/// image of sin 75.
pub proof fn lemma_sin_milli_le_966(d: int)
    requires
        0 <= d <= 75_000,
    ensures
        spec_sin_milli(d) <= 966,
{
    lemma_sine_quadratic_range(d);
    let a = d * (180_000 - d);
    let num = 4000 * a;
    let den = 40_500_000_000 - a;
    assert(num <= 966 * den) by (nonlinear_arith)
        requires
            num == 4000 * a,
            den == 40_500_000_000 - a,
            a <= 7_875_000_000,
    ;
    lemma_div_le_factor(num, den, 966);
}

/// From `num <= c * den` (all non-negative, `den` positive) conclude
/// `num / den <= c`.
proof fn lemma_div_le_factor(num: int, den: int, c: int)
    requires
        num >= 0,
        den > 0,
        c >= 0,
        num <= c * den,
    ensures
        num / den <= c,
{
    vstd::arithmetic::div_mod::lemma_div_multiples_vanish(c, den);
    vstd::arithmetic::div_mod::lemma_div_is_ordered(num, c * den, den);
}

/// Fixed-point sine of `d` millidegrees, scaled by one thousand.
pub fn sin_milli(d: i64) -> (r: i64)
    requires
        0 <= d <= 90_000,
    ensures
        r == spec_sin_milli(d as int),
        0 <= r <= 1000,
{
    proof {
        lemma_sin_milli_range(d as int);
        lemma_sine_quadratic_range(d as int);
    }
    let a = d * (180_000 - d);
    let num = 4000 * a;
    let den = 40_500_000_000 - a;
    crate::arith::div_trunc_i64(num, den)
}

} // verus!
