//! The immutable board configuration for one match.
//!
//! All distances are in milli-pixels, speeds in milli-pixels per second, and
//! times in milliseconds.

use vstd::prelude::*;

verus! {

/// Positions are kept within this many milli-pixels of the field center on
/// both axes; it lies far outside any well-formed board, so in ordinary play
/// the bound is never felt.
pub const POS_LIMIT: i64 = 1_000_000_000;

/// The largest tick duration the simulation accepts, in milliseconds.
pub const DT_LIMIT: i64 = 10_000_000;

/// Paddle travel speed per unit of input axis, in milli-pixels per second.
pub const INPUT_FACTOR: i64 = 1_000_000;

/// Dimensional and tuning constants for one match.
#[derive(Clone, Copy, Debug)]
pub struct BoardConfig {
    /// board dimension from left to right
    pub width: i64,
    /// board dimension from top to bottom
    pub height: i64,
    /// dice visual thickness
    pub dice_width: i64,
    /// length of the dice hit surface
    pub dice_length: i64,
    /// offset from the board edge to the dice axis
    pub dice_offset: i64,
    /// speed of ball travel, in milli-pixels per second
    pub ball_speed: i64,
    /// visual radius of the ball
    pub ball_radius: i64,
    /// visual width of the surrounding walls
    pub border_width: i64,
    /// score for one player to win the game
    pub winning_score: usize,
    /// milliseconds before the ball is launched
    pub start_delay: i64,
}

impl BoardConfig {
    /// A usable board: every dimension is positive and small enough for the
    /// fixed-point arithmetic, the paddles travel inside the field, and the
    /// paddle axes leave room for the ball without crossing a wall.
    pub open spec fn wf(&self) -> bool {
        &&& 0 < self.width <= 100_000_000
        &&& 0 < self.height <= 100_000_000
        &&& 0 < self.dice_width <= self.width
        &&& 2 <= self.dice_length < self.height
        &&& 0 < self.ball_radius < self.dice_offset
        &&& 2 * self.dice_offset <= self.width
        &&& 2 * self.ball_radius < self.height
        &&& 0 <= self.ball_speed <= 10_000_000
        &&& 0 < self.border_width <= 100_000_000
        &&& 1 <= self.winning_score <= 1_000_000
        &&& 0 <= self.start_delay <= 1_000_000_000
    }

    /// How far a paddle center may travel from the field's horizontal
    /// midline.
    pub open spec fn spec_max_dice_position(&self) -> int {
        self.height / 2 - self.dice_length / 2
    }

    /// The vertical line on `kind`'s side that the ball must cross to be in
    /// collision range of that paddle.
    pub open spec fn spec_dice_axis(&self, kind: crate::utils::DiceKind) -> int {
        match kind {
            crate::utils::DiceKind::Left => -(self.width / 2 - self.dice_offset),
            crate::utils::DiceKind::Right => self.width / 2 - self.dice_offset,
        }
    }

    /// The horizontal rest position of `kind`'s paddle: just past the axis,
    /// leaving the ball radius and half the paddle thickness.
    pub open spec fn spec_dice_rest_x(&self, kind: crate::utils::DiceKind) -> int {
        match kind {
            crate::utils::DiceKind::Left => -(self.width / 2) + self.dice_offset
                - self.ball_radius - self.dice_width / 2,
            crate::utils::DiceKind::Right => self.width / 2 - self.dice_offset + self.ball_radius
                + self.dice_width / 2,
        }
    }

    /// The vertical position at which the ball touches the top wall.
    pub open spec fn spec_top_wall(&self) -> int {
        self.height / 2 - self.ball_radius
    }

    /// The highest (or, negated, lowest) position a paddle center may take.
    pub fn max_dice_position(&self, is_top: bool) -> (r: i64)
        requires
            self.wf(),
        ensures
            is_top ==> r == self.spec_max_dice_position(),
            !is_top ==> r == -self.spec_max_dice_position(),
            0 <= self.spec_max_dice_position() <= self.height,
    {
        let offset = crate::arith::div_trunc_i64(self.height, 2) - crate::arith::div_trunc_i64(
            self.dice_length,
            2,
        );
        proof {
            vstd::arithmetic::div_mod::lemma_div_is_ordered(
                self.dice_length as int,
                self.height as int,
                2,
            );
            vstd::arithmetic::div_mod::lemma_div_pos_is_pos(self.dice_length as int, 2);
            vstd::arithmetic::div_mod::lemma_div_nonincreasing(self.height as int, 2);
            vstd::arithmetic::div_mod::lemma_div_pos_is_pos(self.height as int, 2);
        }
        if is_top {
            offset
        } else {
            -offset
        }
    }

    /// Checks well-formedness at run time, for callers outside the verified
    /// world.
    pub fn is_well_formed(&self) -> (b: bool)
        ensures
            b == self.wf(),
    {
        0 < self.width && self.width <= 100_000_000 && 0 < self.height && self.height
            <= 100_000_000 && 0 < self.dice_width && self.dice_width <= self.width && 2
            <= self.dice_length && self.dice_length < self.height && 0 < self.ball_radius
            && self.ball_radius < self.dice_offset && self.dice_offset <= self.width
            - self.dice_offset && self.ball_radius < self.height - self.ball_radius && 0
            <= self.ball_speed && self.ball_speed
            <= 10_000_000 && 0 < self.border_width && self.border_width <= 100_000_000 && 1
            <= self.winning_score && self.winning_score <= 1_000_000 && 0 <= self.start_delay
            && self.start_delay <= 1_000_000_000
    }

    /// The tuning the game ships with: a 1000 by 700 pixel field, 150 pixel
    /// paddles, a 20 pixel ball at 400 pixels per second, two points to win,
    /// and a launch delay of one and a half seconds.
    pub fn standard() -> (c: BoardConfig)
        ensures
            c.wf(),
            c.width == 1_000_000,
            c.height == 700_000,
            c.dice_width == 40_000,
            c.dice_length == 150_000,
            c.dice_offset == 100_000,
            c.ball_speed == 400_000,
            c.ball_radius == 20_000,
            c.border_width == 20_000,
            c.winning_score == 2,
            c.start_delay == 1500,
    {
        BoardConfig {
            width: 1_000_000,
            height: 700_000,
            dice_width: 40_000,
            dice_length: 150_000,
            dice_offset: 100_000,
            ball_speed: 400_000,
            ball_radius: 20_000,
            border_width: 20_000,
            winning_score: 2,
            start_delay: 1500,
        }
    }
}

} // verus!
