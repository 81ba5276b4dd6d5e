//! Shared gameplay vocabulary: paddle sides, fixed-point plane vectors, and
//! the bounce-direction math that both paddle hits and random launches use.

use vstd::prelude::*;

verus! {

/// Which side of the board a paddle guards.
#[derive(Clone, Copy, Debug, PartialEq, Eq, Structural)]
pub enum DiceKind {
    Left,
    Right,
}

/// A plane vector on the fixed-point grid (milli-pixels, or milli-units for
/// velocity directions).
#[derive(Clone, Copy, Debug, PartialEq, Eq, Structural)]
pub struct Vec2 {
    pub x: i64,
    pub y: i64,
}

/// The widest deflection a bounce can take, in millidegrees (75 degrees).
pub const MAX_BOUNCE_ANGLE_MDEG: i64 = 75_000;

/// Millidegrees of deflection per milli-unit of paddle shift: a full shift of
/// one thousand reaches the 75-degree maximum.
pub const MDEG_PER_SHIFT: i64 = 75;

/// The direction a bounced ball takes, as a near-unit vector scaled by one
/// thousand. `shift` is the normalized offset from the paddle's center (milli
/// scale, so within `[-1000, 1000]`); the deflection angle is `shift` times
/// the 75-degree maximum. The horizontal component points leftward when
/// `negate_x` is set (a right paddle returning the ball, or a leftward
/// launch), and the vertical component is the negated sine of the angle. The
/// horizontal magnitude is chosen so the vector lies on the fixed-point unit
/// circle: the integer square root of what the sine leaves of the squared
/// radius.
pub open spec fn spec_bounce_dir(shift: int, negate_x: bool) -> Vec2 {
    let angle = if shift >= 0 {
        shift * MDEG_PER_SHIFT
    } else {
        -shift * MDEG_PER_SHIFT
    };
    let sy = crate::trig::spec_sin_milli(angle);
    let dx = crate::arith::spec_isqrt(1_000_000 - sy * sy);
    Vec2 {
        x: (if negate_x {
            -dx
        } else {
            dx
        }) as i64,
        y: (if shift >= 0 {
            -sy
        } else {
            sy
        }) as i64,
    }
}

/// A bounce direction is a near-unit vector: its squared length lands within
/// a tenth of a percent of the fixed-point unit circle, its horizontal
/// component stays at least the fixed-point cosine of 75 degrees, and a
/// dead-center hit leaves exactly horizontal.
pub proof fn lemma_bounce_dir_props(shift: int, negate_x: bool)
    requires
        -1000 <= shift <= 1000,
    ensures
        258 <= (if negate_x {
            -spec_bounce_dir(shift, negate_x).x
        } else {
            spec_bounce_dir(shift, negate_x).x as int
        }) <= 1000,
        -966 <= spec_bounce_dir(shift, negate_x).y <= 966,
        998_000 <= spec_bounce_dir(shift, negate_x).x * spec_bounce_dir(shift, negate_x).x
            + spec_bounce_dir(shift, negate_x).y * spec_bounce_dir(shift, negate_x).y
            <= 1_000_000,
        shift == 0 ==> spec_bounce_dir(shift, negate_x).y == 0 && spec_bounce_dir(
            shift,
            negate_x,
        ).x == (if negate_x {
            -1000
        } else {
            1000
        }),
        shift >= 0 ==> spec_bounce_dir(shift, negate_x).y <= 0,
        shift <= 0 ==> spec_bounce_dir(shift, negate_x).y >= 0,
{
    let angle = if shift >= 0 {
        shift * MDEG_PER_SHIFT
    } else {
        -shift * MDEG_PER_SHIFT
    };
    assert(0 <= angle <= 75_000) by (nonlinear_arith)
        requires
            -1000 <= shift <= 1000,
            angle == (if shift >= 0 {
                shift * 75
            } else {
                -shift * 75
            }),
    ;
    let sy = crate::trig::spec_sin_milli(angle);
    crate::trig::lemma_sin_milli_range(angle);
    crate::trig::lemma_sin_milli_le_966(angle);
    let m = 1_000_000 - sy * sy;
    assert(66_844 <= m <= 1_000_000) by (nonlinear_arith)
        requires
            0 <= sy <= 966,
            m == 1_000_000 - sy * sy,
    ;
    let dx = crate::arith::spec_isqrt(m);
    crate::arith::lemma_isqrt_bounds(m);
    assert(258 <= dx <= 1000) by (nonlinear_arith)
        requires
            dx >= 0,
            dx * dx <= m,
            m < (dx + 1) * (dx + 1),
            66_844 <= m <= 1_000_000,
    ;
    assert(998_000 <= dx * dx + sy * sy <= 1_000_000) by (nonlinear_arith)
        requires
            0 <= dx <= 1000,
            dx * dx <= m,
            m < (dx + 1) * (dx + 1),
            m == 1_000_000 - sy * sy,
    ;
    if shift == 0 {
        assert(angle == 0);
        assert(sy == 0);
        assert(m == 1_000_000) by (nonlinear_arith)
            requires
                sy == 0,
                m == 1_000_000 - sy * sy,
        ;
        crate::arith::lemma_isqrt_unique(1_000_000, 1000);
        assert(dx == 1000);
        assert(spec_bounce_dir(shift, negate_x).y == 0);
        assert(spec_bounce_dir(shift, negate_x).x == (if negate_x {
            -1000int
        } else {
            1000int
        }));
    }
    let v = spec_bounce_dir(shift, negate_x);
    assert(v.x == if negate_x {
        -dx
    } else {
        dx
    });
    assert(v.y == if shift >= 0 {
        -sy
    } else {
        sy
    });
    assert(v.x * v.x == dx * dx && v.y * v.y == sy * sy) by (nonlinear_arith)
        requires
            v.x == dx || v.x == -dx,
            v.y == sy || v.y == -sy,
    ;
}

/// Computes the direction a bounced or launched ball takes; see
/// [`spec_bounce_dir`].
pub fn bounce_dir(shift: i64, negate_x: bool) -> (v: Vec2)
    requires
        -1000 <= shift <= 1000,
    ensures
        v == spec_bounce_dir(shift as int, negate_x),
        998_000 <= v.x * v.x + v.y * v.y <= 1_000_000,
        -1000 <= v.x <= 1000,
        -966 <= v.y <= 966,
{
    proof {
        lemma_bounce_dir_props(shift as int, negate_x);
    }
    let angle = if shift >= 0 {
        shift * MDEG_PER_SHIFT
    } else {
        -shift * MDEG_PER_SHIFT
    };
    let sy = crate::trig::sin_milli(angle);
    proof {
        assert(sy * sy <= 1_000_000) by (nonlinear_arith)
            requires
                0 <= sy <= 1000,
        ;
    }
    let dx = crate::arith::isqrt_i64(1_000_000 - sy * sy);
    Vec2 {
        x: if negate_x {
            -dx
        } else {
            dx
        },
        y: if shift >= 0 {
            -sy
        } else {
            sy
        },
    }
}

/// Relies on rand::Rng::gen_range over an inclusive integer range: the sample
/// lands within the range's bounds, and the range here is non-empty, so the
/// call does not panic.
#[verifier::external_body]
pub(crate) fn random_swing_milli() -> (s: i64)
    ensures
        -1000 <= s <= 1000,
{
    rand::Rng::gen_range(&mut rand::thread_rng(), -1000..=1000)
}

/// Relies on rand::Rng::gen for `bool`: a coin flip; nothing is assumed of
/// the outcome.
#[verifier::external_body]
pub(crate) fn random_coin() -> bool {
    rand::Rng::gen::<bool>(&mut rand::thread_rng())
}

/// A random launch direction: a uniform swing in `[-1000, 1000]` deflects the
/// ball by up to the 75-degree maximum off horizontal, and a coin flip picks
/// the leftward or rightward heading.
pub fn get_random_starting_angle() -> (v: Vec2)
    ensures
        exists|shift: int, negate_x: bool|
            -1000 <= shift <= 1000 && v == spec_bounce_dir(shift, negate_x),
        998_000 <= v.x * v.x + v.y * v.y <= 1_000_000,
        -1000 <= v.x <= 1000,
        -966 <= v.y <= 966,
{
    let swing = random_swing_milli();
    let heads = random_coin();
    let v = bounce_dir(swing, heads);
    proof {
        assert(-1000 <= swing as int <= 1000 && v == spec_bounce_dir(swing as int, heads));
    }
    v
}

} // verus!
