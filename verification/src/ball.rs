//! The ball: position integration, wall and paddle collision, and
//! out-of-bounds (score) detection.
//!
//! One tick runs in a fixed order. The ball first moves along its velocity
//! direction. If it has crossed a paddle's axis line and is not already in a
//! paddle collision (and not already lost), the paddle on that side is
//! tested: a hit assigns the bounce direction and starts that paddle's
//! recoil feedback, a miss latches the `is_lost` flag. The top and bottom
//! walls then mirror the vertical velocity, debounced the same way. Finally,
//! a lost ball that has fully left the field signals which side let it
//! through.

use vstd::prelude::*;
use crate::config::BoardConfig;
use crate::dice::Dice;
use crate::utils::DiceKind;
use crate::utils::Vec2;

verus! {

/// The ball: position, a near-unit velocity direction (milli scale; scaled
/// by the board's ball speed at integration time), and the three collision
/// latches.
#[derive(Clone, Copy, Debug)]
pub struct Ball {
    /// horizontal position of the ball center
    pub x: i64,
    /// vertical position of the ball center
    pub y: i64,
    /// horizontal velocity direction, milli scale
    pub velocity_x: i64,
    /// vertical velocity direction, milli scale
    pub velocity_y: i64,
    /// set while overlapping the top or bottom wall, against double bounces
    pub is_colliding_y: bool,
    /// set while overlapping a paddle's axis region, against double bounces
    pub is_colliding_x: bool,
    /// latched when the ball crossed a paddle's axis without a valid hit
    pub is_lost: bool,
}

/// The ball state every round starts from: resting at the field center.
pub open spec fn spec_ball_default() -> Ball {
    Ball {
        x: 0,
        y: 0,
        velocity_x: 0,
        velocity_y: 0,
        is_colliding_y: false,
        is_colliding_x: false,
        is_lost: false,
    }
}

impl Default for Ball {
    /// A motionless ball at the field center with all latches clear.
    fn default() -> (b: Ball)
        ensures
            b == spec_ball_default(),
    {
        Ball {
            x: 0,
            y: 0,
            velocity_x: 0,
            velocity_y: 0,
            is_colliding_y: false,
            is_colliding_x: false,
            is_lost: false,
        }
    }
}

impl Ball {
    /// A ball state the simulation can work on: position within the
    /// simulation range and a velocity direction within the milli unit
    /// circle's bounding box.
    pub open spec fn wf(&self) -> bool {
        &&& -crate::config::POS_LIMIT <= self.x <= crate::config::POS_LIMIT
        &&& -crate::config::POS_LIMIT <= self.y <= crate::config::POS_LIMIT
        &&& -1000 <= self.velocity_x <= 1000
        &&& -1000 <= self.velocity_y <= 1000
    }

    /// Clears the velocity and all collision latches, leaving the position
    /// alone (the round reset recenters the ball separately).
    pub fn reset(&mut self)
        ensures
            *final(self) == (Ball { x: old(self).x, y: old(self).y, ..spec_ball_default() }),
    {
        self.velocity_x = 0;
        self.velocity_y = 0;
        self.is_colliding_y = false;
        self.is_colliding_x = false;
        self.is_lost = false;
    }
}

/// Whether a ball crossing a paddle's axis at height `ball_y` is returned,
/// and with which velocity. The hit window reaches `quarter_ball` beyond
/// each paddle end (a forgiving margin of a quarter of the ball's diameter);
/// within it, the normalized offset from the paddle center picks the bounce
/// angle, and the returned direction always points back toward the field
/// center: leftward off a right paddle, rightward off a left paddle.
pub open spec fn spec_dice_collision(
    ball_y: int,
    quarter_ball: int,
    dice_y: int,
    half_dice: int,
    kind: DiceKind,
) -> Option<Vec2> {
    if dice_y - half_dice - quarter_ball <= ball_y <= dice_y + half_dice + quarter_ball {
        let shift = crate::arith::spec_div_trunc((dice_y - ball_y) * 1000, half_dice + quarter_ball);
        Some(crate::utils::spec_bounce_dir(shift, kind == DiceKind::Right))
    } else {
        None
    }
}

/// Tests a paddle-side collision and computes the normalized bounce
/// velocity; `None` is a miss.
pub fn calculate_dice_collision(
    ball_y: i64,
    quarter_ball: i64,
    dice_y: i64,
    half_dice: i64,
    kind: DiceKind,
) -> (r: Option<Vec2>)
    requires
        -crate::config::POS_LIMIT <= ball_y <= crate::config::POS_LIMIT,
        -crate::config::POS_LIMIT <= dice_y <= crate::config::POS_LIMIT,
        0 < half_dice <= 100_000_000,
        0 <= quarter_ball <= 100_000_000,
    ensures
        r == spec_dice_collision(
            ball_y as int,
            quarter_ball as int,
            dice_y as int,
            half_dice as int,
            kind,
        ),
        r matches Some(v) ==> -1000 <= v.x <= 1000 && -1000 <= v.y <= 1000,
{
    let upper_edge = dice_y + half_dice + quarter_ball;
    let lower_edge = dice_y - half_dice - quarter_ball;
    if ball_y <= upper_edge && ball_y >= lower_edge {
        let diff = dice_y - ball_y;
        let prod = diff * 1000;
        let shift = crate::arith::div_trunc_i64(prod, half_dice + quarter_ball);
        proof {
            crate::arith::lemma_div_trunc_bound(
                prod as int,
                (half_dice + quarter_ball) as int,
                1000,
            );
            assert((diff as int) * 1000 <= 1000 * ((half_dice + quarter_ball) as int)
                && -(1000 * ((half_dice + quarter_ball) as int)) <= (diff as int) * 1000)
                by (nonlinear_arith)
                requires
                    -((half_dice + quarter_ball) as int) <= diff as int <= (half_dice
                        + quarter_ball) as int,
            ;
        }
        Some(crate::utils::bounce_dir(shift, matches!(kind, DiceKind::Right)))
    } else {
        None
    }
}

/// A ball striking the exact center of a paddle bounces straight back:
/// horizontal velocity of full magnitude toward the field center, no
/// vertical component.
pub proof fn lemma_center_hit(quarter_ball: int, dice_y: int, half_dice: int, kind: DiceKind)
    requires
        half_dice > 0,
        quarter_ball >= 0,
    ensures
        spec_dice_collision(dice_y, quarter_ball, dice_y, half_dice, kind) == Some(
            Vec2 {
                x: (if kind == DiceKind::Right {
                    -1000int
                } else {
                    1000int
                }) as i64,
                y: 0,
            },
        ),
{
    assert((dice_y - dice_y) * 1000 == 0) by (nonlinear_arith);
    vstd::arithmetic::div_mod::lemma_div_of0(half_dice + quarter_ball);
    crate::utils::lemma_bounce_dir_props(0, kind == DiceKind::Right);
}

/// The ball after one integration step: each coordinate advanced by the
/// velocity direction scaled by the board's ball speed and the tick
/// duration.
pub open spec fn spec_integrate(board: BoardConfig, dt: int, b: Ball) -> Ball {
    Ball {
        x: crate::motion::spec_advance(b.x as int, b.velocity_x as int, board.ball_speed as int, dt) as i64,
        y: crate::motion::spec_advance(b.y as int, b.velocity_y as int, board.ball_speed as int, dt) as i64,
        ..b
    }
}

/// The outcome of testing one paddle once the ball crossed its axis: a hit
/// assigns the bounce velocity, latches the paddle-collision debounce and
/// starts the paddle's recoil feedback; a miss latches `is_lost`.
pub open spec fn spec_side_check(board: BoardConfig, b: Ball, d: Dice) -> (Ball, Dice) {
    let quarter_ball = board.ball_radius / 2;
    let half_dice = board.dice_length / 2;
    match spec_dice_collision(b.y as int, quarter_ball, d.y as int, half_dice, d.kind) {
        Some(v) => (
            Ball { velocity_x: v.x, velocity_y: v.y, is_colliding_x: true, ..b },
            crate::dice::spec_trigger_bounce(d),
        ),
        None => (Ball { is_lost: true, ..b }, d),
    }
}

/// The paddle-side phase of one tick: while not already in a paddle
/// collision, a ball past the right (or left) axis that is not lost is
/// tested against that side's paddle; while the debounce latch is set, it is
/// released only once the ball is back strictly between both axes.
pub open spec fn spec_horizontal_phase(board: BoardConfig, b: Ball, left: Dice, right: Dice) -> (
    Ball,
    Dice,
    Dice,
) {
    let axis_right = board.spec_dice_axis(DiceKind::Right);
    let axis_left = board.spec_dice_axis(DiceKind::Left);
    if !b.is_colliding_x {
        let over_right = b.x > axis_right;
        let over_left = b.x < axis_left;
        if (over_left || over_right) && !b.is_lost {
            if over_right {
                let checked = spec_side_check(board, b, right);
                (checked.0, left, checked.1)
            } else {
                let checked = spec_side_check(board, b, left);
                (checked.0, checked.1, right)
            }
        } else {
            (b, left, right)
        }
    } else {
        if b.x > axis_left && b.x < axis_right {
            (Ball { is_colliding_x: false, ..b }, left, right)
        } else {
            (b, left, right)
        }
    }
}

/// The wall phase of one tick: a ball beyond a wall line while not already
/// in a wall collision has its vertical velocity mirrored once and the
/// debounce latch set; the latch is released only once the ball is back
/// strictly inside both wall lines.
pub open spec fn spec_vertical_phase(board: BoardConfig, b: Ball) -> Ball {
    let top_y = board.spec_top_wall();
    let bottom_y = -top_y;
    if !b.is_colliding_y {
        if b.y > top_y || b.y < bottom_y {
            Ball { velocity_y: (-b.velocity_y) as i64, is_colliding_y: true, ..b }
        } else {
            b
        }
    } else {
        if b.y < top_y && b.y > bottom_y {
            Ball { is_colliding_y: false, ..b }
        } else {
            b
        }
    }
}

/// The round-loss signal: only a lost ball that has fully exited the
/// playfield reports the side that let it through.
pub open spec fn spec_exit_signal(board: BoardConfig, b: Ball) -> Option<DiceKind> {
    if b.is_lost {
        if b.x > board.width / 2 {
            Some(DiceKind::Right)
        } else if b.x < -(board.width / 2) {
            Some(DiceKind::Left)
        } else {
            None
        }
    } else {
        None
    }
}

/// One full ball tick: integration, then the paddle-side phase, then the
/// wall phase, then the round-loss signal.
pub open spec fn spec_ball_step(board: BoardConfig, dt: int, b: Ball, left: Dice, right: Dice)
    -> (Ball, Dice, Dice, Option<DiceKind>) {
    let integrated = spec_integrate(board, dt, b);
    let horizontal = spec_horizontal_phase(board, integrated, left, right);
    let settled = spec_vertical_phase(board, horizontal.0);
    (settled, horizontal.1, horizontal.2, spec_exit_signal(board, settled))
}

/// One paddle's share of the paddle-side phase; see [`spec_side_check`].
fn side_collision(board: &BoardConfig, ball: &mut Ball, dice: &mut Dice)
    requires
        board.wf(),
        old(ball).wf(),
        old(dice).wf(),
    ensures
        (*final(ball), *final(dice)) == spec_side_check(*board, *old(ball), *old(dice)),
        final(ball).wf(),
        final(dice).wf(),
        final(ball).x == old(ball).x,
        final(ball).y == old(ball).y,
{
    let quarter_ball = crate::arith::div_trunc_i64(board.ball_radius, 2);
    let half_dice = crate::arith::div_trunc_i64(board.dice_length, 2);
    proof {
        vstd::arithmetic::div_mod::lemma_div_pos_is_pos(board.ball_radius as int, 2);
        vstd::arithmetic::div_mod::lemma_div_nonincreasing(board.ball_radius as int, 2);
        vstd::arithmetic::div_mod::lemma_div_nonincreasing(board.dice_length as int, 2);
        assert(board.dice_length as int / 2 >= 1) by {
            vstd::arithmetic::div_mod::lemma_div_is_ordered(2, board.dice_length as int, 2);
        }
    }
    match calculate_dice_collision(ball.y, quarter_ball, dice.y, half_dice, dice.kind) {
        Some(v) => {
            ball.velocity_x = v.x;
            ball.velocity_y = v.y;
            ball.is_colliding_x = true;
            crate::dice::trigger_bounce(dice);
        },
        None => {
            ball.is_lost = true;
        },
    }
}

/// Runs one full ball tick; the returned side, if any, is the one that let
/// the ball through (so its opponent scores).
pub fn update_ball(
    board: &BoardConfig,
    dt: i64,
    ball: &mut Ball,
    left: &mut Dice,
    right: &mut Dice,
) -> (lost: Option<DiceKind>)
    requires
        board.wf(),
        old(ball).wf(),
        old(left).wf(),
        old(right).wf(),
        0 <= dt <= crate::config::DT_LIMIT,
    ensures
        (*final(ball), *final(left), *final(right), lost) == spec_ball_step(
            *board,
            dt as int,
            *old(ball),
            *old(left),
            *old(right),
        ),
        final(ball).wf(),
        final(left).wf(),
        final(right).wf(),
{
    ball.x = crate::motion::advance_position(ball.x, ball.velocity_x, board.ball_speed, dt);
    ball.y = crate::motion::advance_position(ball.y, ball.velocity_y, board.ball_speed, dt);
    let half_width = crate::arith::div_trunc_i64(board.width, 2);
    proof {
        vstd::arithmetic::div_mod::lemma_div_pos_is_pos(board.width as int, 2);
        vstd::arithmetic::div_mod::lemma_div_nonincreasing(board.width as int, 2);
    }
    let dice_axis_right = half_width - board.dice_offset;
    let dice_axis_left = -dice_axis_right;
    if !ball.is_colliding_x {
        let over_right = ball.x > dice_axis_right;
        let over_left = ball.x < dice_axis_left;
        if (over_left || over_right) && !ball.is_lost {
            if over_right {
                side_collision(board, ball, right);
            } else {
                side_collision(board, ball, left);
            }
        }
    } else {
        if ball.x > dice_axis_left && ball.x < dice_axis_right {
            ball.is_colliding_x = false;
        }
    }
    let half_height = crate::arith::div_trunc_i64(board.height, 2);
    proof {
        vstd::arithmetic::div_mod::lemma_div_pos_is_pos(board.height as int, 2);
        vstd::arithmetic::div_mod::lemma_div_nonincreasing(board.height as int, 2);
    }
    let top_y = half_height - board.ball_radius;
    let bottom_y = -top_y;
    if !ball.is_colliding_y {
        if ball.y > top_y || ball.y < bottom_y {
            ball.velocity_y = -ball.velocity_y;
            ball.is_colliding_y = true;
        }
    } else {
        if ball.y < top_y && ball.y > bottom_y {
            ball.is_colliding_y = false;
        }
    }
    let mut lost: Option<DiceKind> = None;
    if ball.is_lost {
        if ball.x > half_width {
            lost = Some(DiceKind::Right);
        } else if ball.x < -half_width {
            lost = Some(DiceKind::Left);
        }
    }
    lost
}

/// A ball beyond a wall line with the debounce latch clear has its vertical
/// velocity mirrored exactly once and the latch set; with the latch already
/// set, the wall phase never touches the velocity again.
pub proof fn lemma_wall_reflection(board: BoardConfig, b: Ball)
    ensures
        !b.is_colliding_y && (b.y > board.spec_top_wall() || b.y < -board.spec_top_wall())
            ==> spec_vertical_phase(board, b) == (Ball {
            velocity_y: (-b.velocity_y) as i64,
            is_colliding_y: true,
            ..b
        }),
        b.is_colliding_y ==> spec_vertical_phase(board, b).velocity_y == b.velocity_y,
{
}

/// Across a crossing event no double flip happens: the tick that crosses the
/// wall mirrors the vertical velocity, and a second wall phase on the still
/// overlapping ball leaves the velocity alone.
pub proof fn lemma_no_double_flip(board: BoardConfig, b: Ball)
    requires
        -1000 <= b.velocity_y <= 1000,
        !b.is_colliding_y,
        b.y > board.spec_top_wall() || b.y < -board.spec_top_wall(),
    ensures
        spec_vertical_phase(board, b).velocity_y == -b.velocity_y,
        spec_vertical_phase(board, spec_vertical_phase(board, b)).velocity_y == -b.velocity_y,
{
}

/// A ball resting at the field center with zero velocity (the awaiting-launch
/// state) is untouched by a ball tick: it moves nowhere, collides with
/// nothing, and signals no loss.
pub proof fn lemma_awaiting_ball_inert(board: BoardConfig, dt: int, left: Dice, right: Dice)
    requires
        board.wf(),
        0 <= dt <= crate::config::DT_LIMIT as int,
    ensures
        spec_ball_step(board, dt, spec_ball_default(), left, right) == (
            spec_ball_default(),
            left,
            right,
            None::<DiceKind>,
        ),
{
    let b = spec_ball_default();
    crate::motion::lemma_step_delta_bounds(0, board.ball_speed as int, dt);
    assert(crate::motion::spec_advance(0, 0, board.ball_speed as int, dt) == 0);
    let integrated = spec_integrate(board, dt, b);
    assert(integrated == b);
    vstd::arithmetic::div_mod::lemma_div_multiples_vanish(board.dice_offset as int, 2);
    vstd::arithmetic::div_mod::lemma_div_is_ordered(
        2 * board.dice_offset as int,
        board.width as int,
        2,
    );
    assert(board.spec_dice_axis(DiceKind::Right) >= 0);
    vstd::arithmetic::div_mod::lemma_div_multiples_vanish(board.ball_radius as int, 2);
    vstd::arithmetic::div_mod::lemma_div_is_ordered(
        2 * board.ball_radius as int,
        board.height as int,
        2,
    );
    assert(board.spec_top_wall() >= 0);
    vstd::arithmetic::div_mod::lemma_div_pos_is_pos(board.width as int, 2);
}

/// `is_lost` is a latch: one ball tick never clears it, and while it is set
/// no paddle hit is processed, so both paddles come through unchanged.
pub proof fn lemma_lost_latch(board: BoardConfig, dt: int, b: Ball, left: Dice, right: Dice)
    requires
        b.is_lost,
    ensures
        spec_ball_step(board, dt, b, left, right).0.is_lost,
        spec_ball_step(board, dt, b, left, right).1 == left,
        spec_ball_step(board, dt, b, left, right).2 == right,
{
}

} // verus!
