//! Small integer helpers the simulation is built on: clamping, truncating
//! division, and an integer square root.

use vstd::prelude::*;

verus! {

/// Clamping of `v` into `[lo, hi]`, as a spec-level function.
pub open spec fn spec_clamp(v: int, lo: int, hi: int) -> int {
    if v < lo {
        lo
    } else if v > hi {
        hi
    } else {
        v
    }
}

/// Relies on num::clamp (re-exported from num-traits): returns `min` when the
/// input is below `min`, `max` when above `max`, and the input otherwise; it
/// may panic when `min > max`, which the precondition rules out.
#[verifier::external_body]
pub fn clamp_i64(v: i64, lo: i64, hi: i64) -> (r: i64)
    requires
        lo <= hi,
    ensures
        r == spec_clamp(v as int, lo as int, hi as int),
{
    num::clamp(v, lo, hi)
}

/// Division truncating toward zero, the machine semantics of signed division.
pub open spec fn spec_div_trunc(a: int, b: int) -> int {
    if a >= 0 {
        a / b
    } else {
        -((-a) / b)
    }
}

/// Truncating division of `a` by a positive divisor `b`.
pub fn div_trunc_i64(a: i64, b: i64) -> (r: i64)
    requires
        b > 0,
        a > i64::MIN,
    ensures
        r == spec_div_trunc(a as int, b as int),
{
    proof {
        lemma_div_trunc_in_range(a as int, b as int);
    }
    a.checked_div(b).unwrap()
}

/// Truncating division of a value by a positive divisor never grows its
/// magnitude, so the quotient of an `i64` numerator stays inside `i64`.
pub proof fn lemma_div_trunc_in_range(a: int, b: int)
    requires
        b > 0,
    ensures
        a >= 0 ==> 0 <= spec_div_trunc(a, b) <= a,
        a < 0 ==> a <= spec_div_trunc(a, b) <= 0,
{
    if a >= 0 {
        vstd::arithmetic::div_mod::lemma_div_pos_is_pos(a, b);
        vstd::arithmetic::div_mod::lemma_div_nonincreasing(a, b);
    } else {
        vstd::arithmetic::div_mod::lemma_div_pos_is_pos(-a, b);
        vstd::arithmetic::div_mod::lemma_div_nonincreasing(-a, b);
    }
}

/// A bound on the numerator gives the expected bound on the truncated
/// quotient: `|a| <= c * b` yields `|a / b| <= c`.
pub proof fn lemma_div_trunc_bound(a: int, b: int, c: int)
    requires
        b > 0,
        c >= 0,
        -(c * b) <= a <= c * b,
    ensures
        -c <= spec_div_trunc(a, b) <= c,
{
    vstd::arithmetic::div_mod::lemma_div_multiples_vanish(c, b);
    if a >= 0 {
        vstd::arithmetic::div_mod::lemma_div_is_ordered(a, c * b, b);
        lemma_div_trunc_in_range(a, b);
    } else {
        vstd::arithmetic::div_mod::lemma_div_is_ordered(-a, c * b, b);
        lemma_div_trunc_in_range(a, b);
    }
}

/// The integer square root: the largest `r` with `r * r <= n` (zero for
/// negative arguments).
pub open spec fn spec_isqrt(n: int) -> int
    decreases n,
{
    if n <= 0 {
        0
    } else {
        let r = spec_isqrt(n - 1);
        if (r + 1) * (r + 1) <= n {
            r + 1
        } else {
            r
        }
    }
}

/// The integer square root is characterized by `r * r <= n < (r + 1) * (r + 1)`.
pub proof fn lemma_isqrt_bounds(n: int)
    requires
        n >= 0,
    ensures
        0 <= spec_isqrt(n),
        spec_isqrt(n) * spec_isqrt(n) <= n,
        n < (spec_isqrt(n) + 1) * (spec_isqrt(n) + 1),
    decreases n,
{
    if n > 0 {
        lemma_isqrt_bounds(n - 1);
        let r = spec_isqrt(n - 1);
        if (r + 1) * (r + 1) <= n {
            assert(n < (r + 2) * (r + 2)) by (nonlinear_arith)
                requires
                    n - 1 < (r + 1) * (r + 1),
                    r >= 0,
            ;
        }
    }
}

/// Any `r` within the square-root bracket is the integer square root.
pub proof fn lemma_isqrt_unique(n: int, r: int)
    requires
        n >= 0,
        r >= 0,
        r * r <= n,
        n < (r + 1) * (r + 1),
    ensures
        r == spec_isqrt(n),
{
    let s = spec_isqrt(n);
    lemma_isqrt_bounds(n);
    if r < s {
        assert((r + 1) * (r + 1) <= s * s) by (nonlinear_arith)
            requires
                0 <= r,
                r + 1 <= s,
        ;
    }
    if s < r {
        assert((s + 1) * (s + 1) <= r * r) by (nonlinear_arith)
            requires
                0 <= s,
                s + 1 <= r,
        ;
    }
}

/// The integer square root of a small non-negative number, by upward search.
pub fn isqrt_i64(n: i64) -> (r: i64)
    requires
        0 <= n <= 4_000_000,
    ensures
        r == spec_isqrt(n as int),
        0 <= r <= 2000,
{
    let mut r: i64 = 0;
    while (r + 1) * (r + 1) <= n
        invariant
            0 <= r <= 2000,
            r <= n <= 4_000_000,
            r * r <= n,
            (r + 1) * (r + 1) <= 5_000_000,
        decreases n - r,
    {
        proof {
            assert(r < 2000 && r + 1 <= (r + 1) * (r + 1)) by (nonlinear_arith)
                requires
                    (r + 1) * (r + 1) <= n,
                    n <= 4_000_000,
                    r >= 0,
            ;
            assert((r + 2) * (r + 2) <= 5_000_000) by (nonlinear_arith)
                requires
                    0 <= r < 2000,
            ;
        }
        r = r + 1;
    }
    proof {
        lemma_isqrt_unique(n as int, r as int);
    }
    r
}

} // verus!
