//! Round and match bookkeeping: the score, the delayed-launch timer, and the
//! transition run when a side lets the ball through.

use vstd::prelude::*;
use crate::ball::Ball;
use crate::config::BoardConfig;
use crate::utils::DiceKind;
use crate::GameState;
use crate::LastWinner;

verus! {

/// The two win counters for the running match.
#[derive(Clone, Copy, Debug)]
pub struct Score {
    pub left: usize,
    pub right: usize,
}

impl Default for Score {
    /// A match starts scoreless.
    fn default() -> (s: Score)
        ensures
            s == (Score { left: 0, right: 0 }),
    {
        Score { left: 0, right: 0 }
    }
}

impl Score {
    /// Zeroes both counters, as entering gameplay does.
    pub fn reset(&mut self)
        ensures
            *final(self) == (Score { left: 0, right: 0 }),
    {
        self.left = 0;
        self.right = 0;
    }
}

/// The pre-launch countdown attached to a ball that is not yet in motion.
#[derive(Clone, Copy, Debug)]
pub struct DelayedBallStart {
    /// milliseconds left before launch
    pub remaining_ms: i64,
}

impl DelayedBallStart {
    /// A countdown small enough for the fixed-point arithmetic.
    pub open spec fn wf(&self) -> bool {
        0 <= self.remaining_ms <= 1_000_000_000
    }

    /// A countdown of `remaining_ms` milliseconds.
    pub fn new(remaining_ms: i64) -> (d: DelayedBallStart)
        ensures
            d.remaining_ms == remaining_ms,
    {
        DelayedBallStart { remaining_ms }
    }
}

/// One tick of the launch countdown, parametric in the random draw: the
/// remaining time drops by `dt`; once it falls below zero the ball is given
/// the launch direction picked by `swing` and `heads` and the timer is
/// removed. A ball with no timer is already in play and is left alone.
pub open spec fn spec_launch_step(
    b: Ball,
    pending: Option<DelayedBallStart>,
    dt: int,
    swing: int,
    heads: bool,
) -> (Ball, Option<DelayedBallStart>) {
    match pending {
        None => (b, None),
        Some(d) => {
            let remaining = d.remaining_ms - dt;
            if remaining < 0 {
                let v = crate::utils::spec_bounce_dir(swing, heads);
                (Ball { velocity_x: v.x, velocity_y: v.y, ..b }, None)
            } else {
                (b, Some(DelayedBallStart { remaining_ms: remaining as i64 }))
            }
        },
    }
}

/// One tick of the launch countdown with the random draw passed in; the
/// fully deterministic core of [`update_delayed_ball_start`].
pub fn launch_step(
    dt: i64,
    ball: &mut Ball,
    pending: &mut Option<DelayedBallStart>,
    swing: i64,
    heads: bool,
) -> (launched: bool)
    requires
        old(ball).wf(),
        ((*old(pending)) matches Some(d) ==> d.wf()),
        0 <= dt <= crate::config::DT_LIMIT,
        -1000 <= swing <= 1000,
    ensures
        (*final(ball), *final(pending)) == spec_launch_step(
            *old(ball),
            *old(pending),
            dt as int,
            swing as int,
            heads,
        ),
        final(ball).wf(),
        ((*final(pending)) matches Some(d) ==> d.wf()),
        launched == (((*old(pending)) is Some) && ((*final(pending)) is None)),
{
    match *pending {
        None => false,
        Some(d) => {
            let remaining = d.remaining_ms - dt;
            if remaining < 0 {
                let v = crate::utils::bounce_dir(swing, heads);
                ball.velocity_x = v.x;
                ball.velocity_y = v.y;
                *pending = None;
                true
            } else {
                *pending = Some(DelayedBallStart { remaining_ms: remaining });
                false
            }
        },
    }
}

/// Counts the launch countdown down and, when it expires, launches the ball
/// in a freshly drawn random direction.
pub fn update_delayed_ball_start(
    dt: i64,
    ball: &mut Ball,
    pending: &mut Option<DelayedBallStart>,
) -> (launched: bool)
    requires
        old(ball).wf(),
        ((*old(pending)) matches Some(d) ==> d.wf()),
        0 <= dt <= crate::config::DT_LIMIT,
    ensures
        exists|swing: int, heads: bool|
            #![auto]
            -1000 <= swing <= 1000 && (*final(ball), *final(pending)) == spec_launch_step(
                *old(ball),
                *old(pending),
                dt as int,
                swing,
                heads,
            ),
        final(ball).wf(),
        ((*final(pending)) matches Some(d) ==> d.wf()),
        launched == (((*old(pending)) is Some) && ((*final(pending)) is None)),
{
    let swing = crate::utils::random_swing_milli();
    let heads = crate::utils::random_coin();
    let launched = launch_step(dt, ball, pending, swing, heads);
    proof {
        assert(-1000 <= swing as int <= 1000 && (*final(ball), *final(pending))
            == spec_launch_step(*old(ball), *old(pending), dt as int, swing as int, heads));
    }
    launched
}

/// The round transition, as a spec-level function of the round-loss signal:
/// the opponent of the side that lost scores; the ball is recentered, reset
/// and re-armed with the launch delay; and if the new score reaches the
/// winning threshold, the winner is recorded and the match moves to the
/// game-over screen.
pub open spec fn spec_next_round(
    board: BoardConfig,
    score: Score,
    ball: Ball,
    pending: Option<DelayedBallStart>,
    last_winner: LastWinner,
    state: GameState,
    lost: Option<DiceKind>,
) -> (Score, Ball, Option<DelayedBallStart>, LastWinner, GameState, Option<DiceKind>) {
    match lost {
        None => (score, ball, pending, last_winner, state, None),
        Some(side) => {
            let new_score = match side {
                DiceKind::Right => Score { left: (score.left + 1) as usize, ..score },
                DiceKind::Left => Score { right: (score.right + 1) as usize, ..score },
            };
            let new_ball = crate::ball::spec_ball_default();
            let new_pending = Some(DelayedBallStart { remaining_ms: board.start_delay });
            if new_score.left >= board.winning_score {
                (
                    new_score,
                    new_ball,
                    new_pending,
                    LastWinner { player: Some(DiceKind::Left) },
                    GameState::GameOver,
                    Some(DiceKind::Left),
                )
            } else if new_score.right >= board.winning_score {
                (
                    new_score,
                    new_ball,
                    new_pending,
                    LastWinner { player: Some(DiceKind::Right) },
                    GameState::GameOver,
                    Some(DiceKind::Right),
                )
            } else {
                (new_score, new_ball, new_pending, last_winner, state, None)
            }
        },
    }
}

/// When the round transition reports a winner, it has recorded that side and
/// moved the match to the game-over screen; as long as it reports none, a
/// match in gameplay stays there with both counters below the threshold.
pub proof fn lemma_win_recorded(
    board: BoardConfig,
    score: Score,
    ball: Ball,
    pending: Option<DelayedBallStart>,
    last_winner: LastWinner,
    state: GameState,
    lost: Option<DiceKind>,
)
    requires
        score.left < board.winning_score,
        score.right < board.winning_score,
    ensures
        ({
            let r = spec_next_round(board, score, ball, pending, last_winner, state, lost);
            &&& (r.5 matches Some(w) ==> r.4 == GameState::GameOver && r.3.player == Some(w))
            &&& ((r.5 is None) ==> r.4 == state && r.3 == last_winner && r.0.left
                < board.winning_score && r.0.right < board.winning_score)
            &&& ((r.5 is Some) ==> (lost is Some))
        }),
{
}

/// Processes at most one round-loss signal: scores it, resets the ball for
/// the next round, and detects the win condition. Returns the winning side
/// when the match just ended.
pub fn next_round(
    board: &BoardConfig,
    score: &mut Score,
    ball: &mut Ball,
    pending: &mut Option<DelayedBallStart>,
    last_winner: &mut LastWinner,
    state: &mut GameState,
    lost: Option<DiceKind>,
) -> (won: Option<DiceKind>)
    requires
        board.wf(),
        old(ball).wf(),
        ((*old(pending)) matches Some(d) ==> d.wf()),
        old(score).left < board.winning_score,
        old(score).right < board.winning_score,
    ensures
        (*final(score), *final(ball), *final(pending), *final(last_winner), *final(state), won)
            == spec_next_round(
            *board,
            *old(score),
            *old(ball),
            *old(pending),
            *old(last_winner),
            *old(state),
            lost,
        ),
        final(ball).wf(),
        ((*final(pending)) matches Some(d) ==> d.wf()),
        final(score).left <= board.winning_score,
        final(score).right <= board.winning_score,
        (won is None) ==> final(score).left < board.winning_score && final(score).right
            < board.winning_score,
{
    match lost {
        None => None,
        Some(side) => {
            match side {
                DiceKind::Right => {
                    score.left = score.left + 1;
                },
                DiceKind::Left => {
                    score.right = score.right + 1;
                },
            }
            ball.x = 0;
            ball.y = 0;
            ball.reset();
            *pending = Some(DelayedBallStart::new(board.start_delay));
            if score.left >= board.winning_score {
                last_winner.player = Some(DiceKind::Left);
                *state = GameState::GameOver;
                Some(DiceKind::Left)
            } else if score.right >= board.winning_score {
                last_winner.player = Some(DiceKind::Right);
                *state = GameState::GameOver;
                Some(DiceKind::Right)
            } else {
                None
            }
        },
    }
}

} // verus!
