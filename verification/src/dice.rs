//! The player-controlled paddles ("dice"): per-tick motion from the sampled
//! input axis, and the cosmetic bounce-feedback recoil animation.

use vstd::prelude::*;
use crate::config::BoardConfig;
use crate::utils::DiceKind;

verus! {

/// The transient recoil animation attached to a paddle that was just hit:
/// the paddle slides away from its rest position until `max_offset` is
/// exceeded, then slides back and snaps onto `original_x`.
#[derive(Clone, Copy, Debug)]
pub struct AnimatedDiceBounce {
    /// recoil travel speed, in milli-pixels per second
    pub speed: i64,
    /// the rest position to return to
    pub original_x: i64,
    /// how far past the rest position the outbound phase travels
    pub max_offset: i64,
    /// false while still recoiling outward, true once returning
    pub offset_reached: bool,
}

impl AnimatedDiceBounce {
    /// Animation fields small enough for the fixed-point arithmetic.
    pub open spec fn wf(&self) -> bool {
        &&& 0 <= self.speed <= 10_000_000
        &&& 0 <= self.max_offset <= 100_000_000
        &&& -crate::config::POS_LIMIT <= self.original_x <= crate::config::POS_LIMIT
    }

    /// A fresh recoil for a paddle standing at `dice_x`: 300 pixels per
    /// second of travel, 5 pixels of overshoot.
    pub fn with_dice(dice_x: i64) -> (a: AnimatedDiceBounce)
        ensures
            a == spec_bounce_feedback(dice_x),
    {
        AnimatedDiceBounce { speed: 300_000, original_x: dice_x, max_offset: 5_000, offset_reached: false }
    }
}

/// The recoil animation a collision attaches to a paddle at `dice_x`.
pub open spec fn spec_bounce_feedback(dice_x: i64) -> AnimatedDiceBounce {
    AnimatedDiceBounce { speed: 300_000, original_x: dice_x, max_offset: 5_000, offset_reached: false }
}

/// A paddle: its side, the input axis sampled this tick (milli scale, so
/// within `[-1000, 1000]`), its position, and at most one recoil animation.
#[derive(Clone, Copy, Debug)]
pub struct Dice {
    pub kind: DiceKind,
    /// the input axis value sampled for this tick, milli scale
    pub axis_input: i64,
    /// horizontal position of the paddle center
    pub x: i64,
    /// vertical position of the paddle center
    pub y: i64,
    /// the recoil animation, when one is running
    pub bounce: Option<AnimatedDiceBounce>,
}

impl Dice {
    /// A paddle state the simulation can work on: axis and positions in
    /// range, and any running animation well-formed.
    pub open spec fn wf(&self) -> bool {
        &&& -1000 <= self.axis_input <= 1000
        &&& -crate::config::POS_LIMIT <= self.x <= crate::config::POS_LIMIT
        &&& -crate::config::POS_LIMIT <= self.y <= crate::config::POS_LIMIT
        &&& match self.bounce {
            Some(a) => a.wf(),
            None => true,
        }
    }

    /// A paddle at rest for `kind`: centered vertically on its side's rest
    /// column, no input, no animation.
    pub fn spawn(kind: DiceKind, board: &BoardConfig) -> (d: Dice)
        requires
            board.wf(),
        ensures
            d.kind == kind,
            d.axis_input == 0,
            d.x == board.spec_dice_rest_x(kind),
            d.y == 0,
            (d.bounce is None),
            d.wf(),
    {
        let half_width = crate::arith::div_trunc_i64(board.width, 2);
        let half_dice_width = crate::arith::div_trunc_i64(board.dice_width, 2);
        proof {
            vstd::arithmetic::div_mod::lemma_div_pos_is_pos(board.width as int, 2);
            vstd::arithmetic::div_mod::lemma_div_nonincreasing(board.width as int, 2);
            vstd::arithmetic::div_mod::lemma_div_pos_is_pos(board.dice_width as int, 2);
            vstd::arithmetic::div_mod::lemma_div_nonincreasing(board.dice_width as int, 2);
        }
        let x = match kind {
            DiceKind::Left => -half_width + board.dice_offset - board.ball_radius
                - half_dice_width,
            DiceKind::Right => half_width - board.dice_offset + board.ball_radius
                + half_dice_width,
        };
        Dice { kind, axis_input: 0, x, y: 0, bounce: None }
    }
}

/// Where a paddle center stands after one tick of motion: the sampled axis
/// scaled by the input-to-speed factor and the elapsed time, then clamped to
/// the paddle's travel range.
pub open spec fn spec_dice_y_step(board: BoardConfig, y: int, axis: int, dt: int) -> int {
    crate::arith::spec_clamp(
        y + crate::motion::spec_step_delta(axis, crate::config::INPUT_FACTOR as int, dt),
        -board.spec_max_dice_position(),
        board.spec_max_dice_position(),
    )
}

/// However a paddle moved before, one tick of motion leaves its center
/// within the travel range `[-max_dice_position, max_dice_position]`.
pub proof fn lemma_paddle_clamp(board: BoardConfig, y: int, axis: int, dt: int)
    requires
        board.wf(),
    ensures
        -board.spec_max_dice_position() <= spec_dice_y_step(board, y, axis, dt)
            <= board.spec_max_dice_position(),
{
    vstd::arithmetic::div_mod::lemma_div_is_ordered(
        board.dice_length as int,
        board.height as int,
        2,
    );
}

/// Moves both paddles for one tick from their sampled input axes.
pub fn update_dices(board: &BoardConfig, dt: i64, left: &mut Dice, right: &mut Dice)
    requires
        board.wf(),
        old(left).wf(),
        old(right).wf(),
        0 <= dt <= crate::config::DT_LIMIT,
    ensures
        *final(left) == (Dice {
            y: spec_dice_y_step(*board, old(left).y as int, old(left).axis_input as int, dt as int) as i64,
            ..*old(left)
        }),
        *final(right) == (Dice {
            y: spec_dice_y_step(*board, old(right).y as int, old(right).axis_input as int, dt as int) as i64,
            ..*old(right)
        }),
        -board.spec_max_dice_position() <= final(left).y <= board.spec_max_dice_position(),
        -board.spec_max_dice_position() <= final(right).y <= board.spec_max_dice_position(),
        final(left).wf(),
        final(right).wf(),
{
    dice_motion(board, dt, left);
    dice_motion(board, dt, right);
}

/// One paddle's share of [`update_dices`].
fn dice_motion(board: &BoardConfig, dt: i64, dice: &mut Dice)
    requires
        board.wf(),
        old(dice).wf(),
        0 <= dt <= crate::config::DT_LIMIT,
    ensures
        *final(dice) == (Dice {
            y: spec_dice_y_step(*board, old(dice).y as int, old(dice).axis_input as int, dt as int) as i64,
            ..*old(dice)
        }),
        -board.spec_max_dice_position() <= final(dice).y <= board.spec_max_dice_position(),
        final(dice).wf(),
{
    proof {
        crate::motion::lemma_step_delta_bounds(
            old(dice).axis_input as int,
            crate::config::INPUT_FACTOR as int,
            dt as int,
        );
        lemma_paddle_clamp(*board, old(dice).y as int, old(dice).axis_input as int, dt as int);
        let ax = old(dice).axis_input as int;
        let step = dt as int;
        assert(-2_000_000_000_000 <= ax * (crate::config::INPUT_FACTOR as int)
            <= 2_000_000_000_000) by (nonlinear_arith)
            requires
                -1000 <= ax <= 1000,
        ;
        assert(-(200_000_000_000_000_000 as int) <= ax * (crate::config::INPUT_FACTOR as int)
            * step <= 200_000_000_000_000_000) by (nonlinear_arith)
            requires
                -1000 <= ax <= 1000,
                0 <= step <= 10_000_000,
        ;
    }
    let prod = dice.axis_input * crate::config::INPUT_FACTOR * dt;
    let delta = crate::arith::div_trunc_i64(prod, 1_000_000);
    let top = board.max_dice_position(true);
    let bottom = board.max_dice_position(false);
    dice.y = crate::arith::clamp_i64(dice.y + delta, bottom, top);
}

/// The horizontal direction (milli scale) a paddle recoils in: away from the
/// field center.
pub open spec fn spec_outward_dir(kind: DiceKind) -> int {
    match kind {
        DiceKind::Left => -1000,
        DiceKind::Right => 1000,
    }
}

/// Attaching the recoil feedback to a paddle: the single `bounce` slot is
/// filled (or refilled) with a fresh animation rooted at the paddle's
/// current position.
pub open spec fn spec_trigger_bounce(d: Dice) -> Dice {
    Dice { bounce: Some(spec_bounce_feedback(d.x)), ..d }
}

/// Repeated collisions before the feedback animation advances do not stack:
/// re-triggering the recoil on an untouched paddle leaves the very same
/// single animation, and a paddle can never hold more than one (its `bounce`
/// slot is the only place an animation lives).
pub proof fn lemma_feedback_idempotent(d: Dice)
    ensures
        spec_trigger_bounce(spec_trigger_bounce(d)) == spec_trigger_bounce(d),
{
}

/// Attaches the recoil feedback to a paddle that was just hit.
pub fn trigger_bounce(dice: &mut Dice)
    requires
        old(dice).wf(),
    ensures
        *final(dice) == spec_trigger_bounce(*old(dice)),
        final(dice).wf(),
{
    let anim = AnimatedDiceBounce::with_dice(dice.x);
    dice.bounce = Some(anim);
}

/// Where one tick takes a recoiling paddle: outward at the animation's speed
/// until the paddle passes `max_offset` from its origin, then back inward
/// until it reaches (or overshoots and snaps onto) the origin, at which point
/// the animation is removed.
pub open spec fn spec_anim_step(d: Dice, dt: int) -> Dice {
    match d.bounce {
        None => d,
        Some(a) => {
            if !a.offset_reached {
                let nx = crate::motion::spec_advance(
                    d.x as int,
                    spec_outward_dir(d.kind),
                    a.speed as int,
                    dt,
                );
                let reached = match d.kind {
                    DiceKind::Right => nx > a.original_x + a.max_offset,
                    DiceKind::Left => nx < a.original_x - a.max_offset,
                };
                Dice {
                    x: nx as i64,
                    bounce: Some(AnimatedDiceBounce { offset_reached: reached, ..a }),
                    ..d
                }
            } else {
                let nx = crate::motion::spec_advance(
                    d.x as int,
                    -spec_outward_dir(d.kind),
                    a.speed as int,
                    dt,
                );
                let finished = match d.kind {
                    DiceKind::Right => nx <= a.original_x,
                    DiceKind::Left => nx >= a.original_x,
                };
                if finished {
                    Dice { x: a.original_x, bounce: None, ..d }
                } else {
                    Dice { x: nx as i64, ..d }
                }
            }
        },
    }
}

/// Advances a paddle's recoil animation by one tick; paddles without a
/// running animation are left alone.
pub fn update_dice_animation(dice: &mut Dice, dt: i64)
    requires
        old(dice).wf(),
        0 <= dt <= crate::config::DT_LIMIT,
    ensures
        *final(dice) == spec_anim_step(*old(dice), dt as int),
        final(dice).wf(),
{
    let b = dice.bounce;
    match b {
        None => {},
        Some(a) => {
            if !a.offset_reached {
                let dir: i64 = match dice.kind {
                    DiceKind::Right => 1000,
                    DiceKind::Left => -1000,
                };
                let nx = crate::motion::advance_position(dice.x, dir, a.speed, dt);
                dice.x = nx;
                let reached = match dice.kind {
                    DiceKind::Right => nx > a.original_x + a.max_offset,
                    DiceKind::Left => nx < a.original_x - a.max_offset,
                };
                dice.bounce = Some(AnimatedDiceBounce { offset_reached: reached, ..a });
            } else {
                let dir: i64 = match dice.kind {
                    DiceKind::Right => -1000,
                    DiceKind::Left => 1000,
                };
                let nx = crate::motion::advance_position(dice.x, dir, a.speed, dt);
                let finished = match dice.kind {
                    DiceKind::Right => nx <= a.original_x,
                    DiceKind::Left => nx >= a.original_x,
                };
                if finished {
                    dice.x = a.original_x;
                    dice.bounce = None;
                } else {
                    dice.x = nx;
                }
            }
        },
    }
}

/// One tick of paddle motion keeps a paddle well-formed (the clamped travel
/// range lies far inside the simulation's position range) and touches only
/// its vertical position.
pub proof fn lemma_moved_dice_wf(board: BoardConfig, d: Dice, dt: int)
    requires
        board.wf(),
        d.wf(),
    ensures
        (Dice { y: spec_dice_y_step(board, d.y as int, d.axis_input as int, dt) as i64, ..d }).wf(),
{
    lemma_paddle_clamp(board, d.y as int, d.axis_input as int, dt);
    vstd::arithmetic::div_mod::lemma_div_nonincreasing(board.height as int, 2);
    vstd::arithmetic::div_mod::lemma_div_pos_is_pos(board.height as int, 2);
    vstd::arithmetic::div_mod::lemma_div_pos_is_pos(board.dice_length as int, 2);
}

/// One tick of the recoil animation keeps a paddle well-formed and touches
/// only its horizontal position and its animation slot.
pub proof fn lemma_anim_step_wf(d: Dice, dt: int)
    requires
        d.wf(),
    ensures
        spec_anim_step(d, dt).wf(),
        spec_anim_step(d, dt).kind == d.kind,
        spec_anim_step(d, dt).y == d.y,
        spec_anim_step(d, dt).axis_input == d.axis_input,
{
}

/// The input axis sampled from a paddle's two keys: up and down cancel.
pub open spec fn spec_axis_value(up: bool, down: bool) -> int {
    if up == down {
        0
    } else if up {
        1000
    } else {
        -1000
    }
}

/// The input axis a paddle samples from its two keys: up and down cancel.
pub fn axis_value(up: bool, down: bool) -> (axis: i64)
    ensures
        axis == spec_axis_value(up, down),
        -1000 <= axis <= 1000,
{
    let mut axis: i64 = 0;
    if up {
        axis = axis + 1000;
    }
    if down {
        axis = axis - 1000;
    }
    axis
}

} // verus!
