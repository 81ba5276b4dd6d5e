//! Position integration on the fixed-point grid.
//!
//! A step scales a milli-unit direction by a speed in milli-pixels per second
//! and a duration in milliseconds; dividing by one million (the direction
//! scale times the milliseconds in a second) yields milli-pixels. Positions
//! are kept inside `[-POS_LIMIT, POS_LIMIT]` so the integer arithmetic can
//! never overflow, however long a runaway ball would drift.

use vstd::prelude::*;

verus! {

/// How far a body moves in one tick: direction (milli scale) times speed
/// (milli-pixels per second) times duration (milliseconds), truncated to
/// milli-pixels.
pub open spec fn spec_step_delta(dir: int, speed: int, dt: int) -> int {
    crate::arith::spec_div_trunc(dir * speed * dt, 1_000_000)
}

/// One integration step: the position advanced by the step, clamped into the
/// simulation's position range.
pub open spec fn spec_advance(pos: int, dir: int, speed: int, dt: int) -> int {
    crate::arith::spec_clamp(
        pos + spec_step_delta(dir, speed, dt),
        -crate::config::POS_LIMIT as int,
        crate::config::POS_LIMIT as int,
    )
}

/// The step is bounded by the product of its factors' bounds, and a zero
/// direction or a zero duration moves nothing.
pub proof fn lemma_step_delta_bounds(dir: int, speed: int, dt: int)
    requires
        -2000 <= dir <= 2000,
        0 <= speed <= 10_000_000,
        0 <= dt <= crate::config::DT_LIMIT,
    ensures
        -(200_000_000_000 as int) <= spec_step_delta(dir, speed, dt) <= 200_000_000_000,
        dir == 0 ==> spec_step_delta(dir, speed, dt) == 0,
        dt == 0 ==> spec_step_delta(dir, speed, dt) == 0,
        dir > 0 ==> spec_step_delta(dir, speed, dt) >= 0,
        dir < 0 ==> spec_step_delta(dir, speed, dt) <= 0,
{
    assert(-(200_000_000_000_000_000 as int) <= dir * speed * dt <= 200_000_000_000_000_000)
        by (nonlinear_arith)
        requires
            -2000 <= dir <= 2000,
            0 <= speed <= 10_000_000,
            0 <= dt <= 10_000_000,
    ;
    crate::arith::lemma_div_trunc_bound(dir * speed * dt, 1_000_000, 200_000_000_000);
    if dir == 0 || dt == 0 {
        assert(dir * speed * dt == 0) by (nonlinear_arith)
            requires
                dir == 0 || dt == 0,
        ;
        assert(crate::arith::spec_div_trunc(0, 1_000_000) == 0) by {
            vstd::arithmetic::div_mod::lemma_div_of0(1_000_000);
        }
    }
    if dir > 0 {
        assert(dir * speed * dt >= 0) by (nonlinear_arith)
            requires
                dir > 0,
                speed >= 0,
                dt >= 0,
        ;
        crate::arith::lemma_div_trunc_in_range(dir * speed * dt, 1_000_000);
    }
    if dir < 0 {
        assert(dir * speed * dt <= 0) by (nonlinear_arith)
            requires
                dir < 0,
                speed >= 0,
                dt >= 0,
        ;
        crate::arith::lemma_div_trunc_in_range(dir * speed * dt, 1_000_000);
    }
}

/// Advances a coordinate by one integration step.
pub fn advance_position(pos: i64, dir: i64, speed: i64, dt: i64) -> (p: i64)
    requires
        -crate::config::POS_LIMIT <= pos <= crate::config::POS_LIMIT,
        -2000 <= dir <= 2000,
        0 <= speed <= 10_000_000,
        0 <= dt <= crate::config::DT_LIMIT,
    ensures
        p == spec_advance(pos as int, dir as int, speed as int, dt as int),
        -crate::config::POS_LIMIT <= p <= crate::config::POS_LIMIT,
{
    proof {
        lemma_step_delta_bounds(dir as int, speed as int, dt as int);
        assert(-(200_000_000_000_000_000 as int) <= (dir as int) * (speed as int) * (dt as int)
            <= 200_000_000_000_000_000) by (nonlinear_arith)
            requires
                -2000 <= dir as int <= 2000,
                0 <= speed as int <= 10_000_000,
                0 <= dt as int <= 10_000_000,
        ;
        assert(-(20_000_000_000 as int) <= (dir as int) * (speed as int) <= 20_000_000_000)
            by (nonlinear_arith)
            requires
                -2000 <= dir as int <= 2000,
                0 <= speed as int <= 10_000_000,
        ;
    }
    let prod = dir * speed * dt;
    let delta = crate::arith::div_trunc_i64(prod, 1_000_000);
    crate::arith::clamp_i64(
        pos + delta,
        -crate::config::POS_LIMIT,
        crate::config::POS_LIMIT,
    )
}

} // verus!
