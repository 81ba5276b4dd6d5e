//! The gameplay session: all per-match state, and the fixed-order per-tick
//! update that drives it.
//!
//! One tick runs, in order: input sampling, paddle motion, ball integration
//! and collision, round-loss handling, the bounce-feedback animation, and
//! the delayed-launch countdown. A timer re-armed by a round loss starts
//! counting on the following tick.

use vstd::prelude::*;
use crate::ball::Ball;
use crate::config::BoardConfig;
use crate::dice::Dice;
use crate::round::DelayedBallStart;
use crate::round::Score;
use crate::utils::DiceKind;
use crate::GameState;
use crate::LastWinner;

verus! {

/// The signals one tick can emit: a round loss naming the side that let the
/// ball through, and a match win naming the side that reached the winning
/// score.
#[derive(Clone, Copy, Debug)]
pub struct TickEvents {
    pub round_lost: Option<DiceKind>,
    pub match_won: Option<DiceKind>,
}

/// All simulation state owned by one gameplay session.
#[derive(Clone, Copy, Debug)]
pub struct GameSession {
    pub board: BoardConfig,
    pub left_dice: Dice,
    pub right_dice: Dice,
    pub ball: Ball,
    pub pending_start: Option<DelayedBallStart>,
    pub score: Score,
    pub last_winner: LastWinner,
    pub state: GameState,
}

impl GameSession {
    /// The session invariant: a well-formed board and entities, each paddle
    /// on its own side, counters within the winning threshold (strictly
    /// while gameplay runs), and — while the launch timer is armed — a ball
    /// resting untouched at the field center.
    pub open spec fn wf(&self) -> bool {
        &&& self.board.wf()
        &&& self.left_dice.wf()
        &&& self.left_dice.kind == DiceKind::Left
        &&& self.right_dice.wf()
        &&& self.right_dice.kind == DiceKind::Right
        &&& self.ball.wf()
        &&& (self.pending_start matches Some(d) ==> d.wf())
        &&& (self.pending_start is Some ==> self.ball == crate::ball::spec_ball_default())
        &&& self.score.left <= self.board.winning_score
        &&& self.score.right <= self.board.winning_score
        &&& (self.state == GameState::Gameplay ==> self.score.left < self.board.winning_score
            && self.score.right < self.board.winning_score)
    }

    /// A fresh match on `board`: paddles at rest on their sides, a zeroed
    /// score, and the ball held at the center behind the launch delay.
    pub fn new(board: BoardConfig) -> (s: GameSession)
        requires
            board.wf(),
        ensures
            s.wf(),
            s.board == board,
            s.state == GameState::Gameplay,
            s.score == (Score { left: 0, right: 0 }),
            s.ball == crate::ball::spec_ball_default(),
            s.pending_start == Some(DelayedBallStart { remaining_ms: board.start_delay }),
            (s.last_winner.player is None),
    {
        GameSession {
            board,
            left_dice: Dice::spawn(DiceKind::Left, &board),
            right_dice: Dice::spawn(DiceKind::Right, &board),
            ball: Ball::default(),
            pending_start: Some(DelayedBallStart::new(board.start_delay)),
            score: Score { left: 0, right: 0 },
            last_winner: LastWinner::default(),
            state: GameState::Gameplay,
        }
    }

    /// Re-enters gameplay for a fresh match: every per-match entity is
    /// respawned and the score zeroed; only the last recorded winner
    /// survives.
    pub fn enter_gameplay(&mut self)
        requires
            old(self).board.wf(),
        ensures
            final(self).wf(),
            final(self).board == old(self).board,
            final(self).state == GameState::Gameplay,
            final(self).score == (Score { left: 0, right: 0 }),
            final(self).ball == crate::ball::spec_ball_default(),
            final(self).pending_start == Some(
                DelayedBallStart { remaining_ms: old(self).board.start_delay },
            ),
            final(self).last_winner == old(self).last_winner,
    {
        self.left_dice = Dice::spawn(DiceKind::Left, &self.board);
        self.right_dice = Dice::spawn(DiceKind::Right, &self.board);
        self.ball = Ball::default();
        self.pending_start = Some(DelayedBallStart::new(self.board.start_delay));
        self.score.reset();
        self.state = GameState::Gameplay;
    }
}

/// One full tick of the session, parametric in the random launch draw: input
/// sampling, paddle motion, the ball tick, the round transition, the recoil
/// animations, and — unless a round loss just re-armed it — the launch
/// countdown. Outside gameplay the session is inert.
pub open spec fn spec_session_tick(
    s: GameSession,
    dt: int,
    left_up: bool,
    left_down: bool,
    right_up: bool,
    right_down: bool,
    swing: int,
    heads: bool,
) -> (GameSession, TickEvents) {
    if s.state != GameState::Gameplay {
        (s, TickEvents { round_lost: None, match_won: None })
    } else {
        let left_sampled = Dice {
            axis_input: crate::dice::spec_axis_value(left_up, left_down) as i64,
            ..s.left_dice
        };
        let right_sampled = Dice {
            axis_input: crate::dice::spec_axis_value(right_up, right_down) as i64,
            ..s.right_dice
        };
        let left_moved = Dice {
            y: crate::dice::spec_dice_y_step(
                s.board,
                left_sampled.y as int,
                left_sampled.axis_input as int,
                dt,
            ) as i64,
            ..left_sampled
        };
        let right_moved = Dice {
            y: crate::dice::spec_dice_y_step(
                s.board,
                right_sampled.y as int,
                right_sampled.axis_input as int,
                dt,
            ) as i64,
            ..right_sampled
        };
        let ball_tick = crate::ball::spec_ball_step(s.board, dt, s.ball, left_moved, right_moved);
        let transition = crate::round::spec_next_round(
            s.board,
            s.score,
            ball_tick.0,
            s.pending_start,
            s.last_winner,
            s.state,
            ball_tick.3,
        );
        let left_animated = crate::dice::spec_anim_step(ball_tick.1, dt);
        let right_animated = crate::dice::spec_anim_step(ball_tick.2, dt);
        let countdown = if ball_tick.3 is Some {
            (transition.1, transition.2)
        } else {
            crate::round::spec_launch_step(transition.1, transition.2, dt, swing, heads)
        };
        (
            GameSession {
                board: s.board,
                left_dice: left_animated,
                right_dice: right_animated,
                ball: countdown.0,
                pending_start: countdown.1,
                score: transition.0,
                last_winner: transition.3,
                state: transition.4,
            },
            TickEvents { round_lost: ball_tick.3, match_won: transition.5 },
        )
    }
}

impl GameSession {
    /// Runs one simulation tick from the four key states and the elapsed
    /// time. At most one round-loss signal is emitted per tick, and a match
    /// win always rides on a round loss.
    pub fn tick(&mut self, dt: i64, left_up: bool, left_down: bool, right_up: bool,
        right_down: bool) -> (ev: TickEvents)
        requires
            old(self).wf(),
            0 <= dt <= crate::config::DT_LIMIT,
        ensures
            exists|swing: int, heads: bool|
                #![auto]
                -1000 <= swing <= 1000 && (*final(self), ev) == spec_session_tick(
                    *old(self),
                    dt as int,
                    left_up,
                    left_down,
                    right_up,
                    right_down,
                    swing,
                    heads,
                ),
            final(self).wf(),
            old(self).state != GameState::Gameplay ==> *final(self) == *old(self) && (
            ev.round_lost is None) && (ev.match_won is None),
            ev.match_won matches Some(w) ==> final(self).state == GameState::GameOver
                && final(self).last_winner.player == Some(w),
            (ev.match_won is Some) ==> (ev.round_lost is Some),
            (ev.round_lost is Some) ==> final(self).ball == crate::ball::spec_ball_default(),
    {
        if !matches!(self.state, GameState::Gameplay) {
            let ev = TickEvents { round_lost: None, match_won: None };
            proof {
                assert((*self, ev) == spec_session_tick(
                    *old(self),
                    dt as int,
                    left_up,
                    left_down,
                    right_up,
                    right_down,
                    0,
                    false,
                ));
            }
            return ev;
        }
        let ghost entry = *self;
        let left_axis = crate::dice::axis_value(left_up, left_down);
        let right_axis = crate::dice::axis_value(right_up, right_down);
        self.left_dice.axis_input = left_axis;
        self.right_dice.axis_input = right_axis;
        crate::dice::update_dices(&self.board, dt, &mut self.left_dice, &mut self.right_dice);
        let lost = crate::ball::update_ball(
            &self.board,
            dt,
            &mut self.ball,
            &mut self.left_dice,
            &mut self.right_dice,
        );
        let ghost after_ball = *self;
        let won = crate::round::next_round(
            &self.board,
            &mut self.score,
            &mut self.ball,
            &mut self.pending_start,
            &mut self.last_winner,
            &mut self.state,
            lost,
        );
        proof {
            crate::round::lemma_win_recorded(
                entry.board,
                entry.score,
                after_ball.ball,
                entry.pending_start,
                entry.last_winner,
                entry.state,
                lost,
            );
        }
        crate::dice::update_dice_animation(&mut self.left_dice, dt);
        crate::dice::update_dice_animation(&mut self.right_dice, dt);
        let ghost after_round = *self;
        if lost.is_none() {
            proof {
                if entry.pending_start is Some {
                    crate::ball::lemma_awaiting_ball_inert(
                        entry.board,
                        dt as int,
                        after_ball.left_dice,
                        after_ball.right_dice,
                    );
                }
            }
            let launched = crate::round::update_delayed_ball_start(
                dt,
                &mut self.ball,
                &mut self.pending_start,
            );
            let ev = TickEvents { round_lost: lost, match_won: won };
            proof {
                let (sw, hd): (int, bool) = choose|sw: int, hd: bool|
                    #![auto]
                    -1000 <= sw <= 1000 && (self.ball, self.pending_start)
                        == crate::round::spec_launch_step(
                        after_round.ball,
                        after_round.pending_start,
                        dt as int,
                        sw,
                        hd,
                    );
                assert((*self, ev) == spec_session_tick(
                    entry,
                    dt as int,
                    left_up,
                    left_down,
                    right_up,
                    right_down,
                    sw,
                    hd,
                ));
            }
            ev
        } else {
            let ev = TickEvents { round_lost: lost, match_won: won };
            proof {
                assert((*self, ev) == spec_session_tick(
                    entry,
                    dt as int,
                    left_up,
                    left_down,
                    right_up,
                    right_down,
                    0,
                    false,
                ));
            }
            ev
        }
    }
}

/// Outside gameplay the session is inert: a tick changes nothing and emits
/// nothing, so once a match is over no further round-loss signal is
/// processed for it.
pub proof fn lemma_game_over_inert(
    s: GameSession,
    dt: int,
    left_up: bool,
    left_down: bool,
    right_up: bool,
    right_down: bool,
    swing: int,
    heads: bool,
)
    requires
        s.state != GameState::Gameplay,
    ensures
        spec_session_tick(s, dt, left_up, left_down, right_up, right_down, swing, heads).0 == s,
        (spec_session_tick(
            s,
            dt,
            left_up,
            left_down,
            right_up,
            right_down,
            swing,
            heads,
        ).1.round_lost is None),
        (spec_session_tick(
            s,
            dt,
            left_up,
            left_down,
            right_up,
            right_down,
            swing,
            heads,
        ).1.match_won is None),
{
}

/// Whatever the input history, after any gameplay tick both paddle centers
/// lie within the clamped travel range.
pub proof fn lemma_session_paddle_clamp(
    s: GameSession,
    dt: int,
    left_up: bool,
    left_down: bool,
    right_up: bool,
    right_down: bool,
    swing: int,
    heads: bool,
)
    requires
        s.wf(),
        s.state == GameState::Gameplay,
    ensures
        ({
            let r = spec_session_tick(s, dt, left_up, left_down, right_up, right_down, swing, heads).0;
            &&& -s.board.spec_max_dice_position() <= r.left_dice.y
                <= s.board.spec_max_dice_position()
            &&& -s.board.spec_max_dice_position() <= r.right_dice.y
                <= s.board.spec_max_dice_position()
        }),
{
    crate::dice::lemma_paddle_clamp(
        s.board,
        s.left_dice.y as int,
        crate::dice::spec_axis_value(left_up, left_down),
        dt,
    );
    crate::dice::lemma_paddle_clamp(
        s.board,
        s.right_dice.y as int,
        crate::dice::spec_axis_value(right_up, right_down),
        dt,
    );
    let left_moved = Dice {
        y: crate::dice::spec_dice_y_step(
            s.board,
            s.left_dice.y as int,
            crate::dice::spec_axis_value(left_up, left_down),
            dt,
        ) as i64,
        ..Dice { axis_input: crate::dice::spec_axis_value(left_up, left_down) as i64, ..s.left_dice }
    };
    let right_moved = Dice {
        y: crate::dice::spec_dice_y_step(
            s.board,
            s.right_dice.y as int,
            crate::dice::spec_axis_value(right_up, right_down),
            dt,
        ) as i64,
        ..Dice { axis_input: crate::dice::spec_axis_value(right_up, right_down) as i64, ..s.right_dice }
    };
    let ball_tick = crate::ball::spec_ball_step(s.board, dt, s.ball, left_moved, right_moved);
    assert(ball_tick.1.y == left_moved.y && ball_tick.2.y == right_moved.y);
    crate::dice::lemma_anim_step_wf(ball_tick.1, dt);
    crate::dice::lemma_anim_step_wf(ball_tick.2, dt);
}

/// A round-loss signal is emitted exactly once per crossing: the tick that
/// reports it leaves the ball reset behind the launch delay, so the next
/// tick — whatever its inputs — reports no loss.
pub proof fn lemma_single_loss_signal(
    s: GameSession,
    dt1: int,
    lu1: bool,
    ld1: bool,
    ru1: bool,
    rd1: bool,
    sw1: int,
    hd1: bool,
    dt2: int,
    lu2: bool,
    ld2: bool,
    ru2: bool,
    rd2: bool,
    sw2: int,
    hd2: bool,
)
    requires
        s.wf(),
        s.state == GameState::Gameplay,
        0 <= dt2 <= crate::config::DT_LIMIT as int,
        (spec_session_tick(s, dt1, lu1, ld1, ru1, rd1, sw1, hd1).1.round_lost is Some),
    ensures
        (spec_session_tick(
            spec_session_tick(s, dt1, lu1, ld1, ru1, rd1, sw1, hd1).0,
            dt2,
            lu2,
            ld2,
            ru2,
            rd2,
            sw2,
            hd2,
        ).1.round_lost is None),
{
    let s1 = spec_session_tick(s, dt1, lu1, ld1, ru1, rd1, sw1, hd1).0;
    assert(s1.ball == crate::ball::spec_ball_default());
    assert(s1.board == s.board);
    if s1.state == GameState::Gameplay {
        let left_moved = Dice {
            y: crate::dice::spec_dice_y_step(
                s1.board,
                s1.left_dice.y as int,
                crate::dice::spec_axis_value(lu2, ld2),
                dt2,
            ) as i64,
            ..Dice { axis_input: crate::dice::spec_axis_value(lu2, ld2) as i64, ..s1.left_dice }
        };
        let right_moved = Dice {
            y: crate::dice::spec_dice_y_step(
                s1.board,
                s1.right_dice.y as int,
                crate::dice::spec_axis_value(ru2, rd2),
                dt2,
            ) as i64,
            ..Dice { axis_input: crate::dice::spec_axis_value(ru2, rd2) as i64, ..s1.right_dice }
        };
        crate::ball::lemma_awaiting_ball_inert(s1.board, dt2, left_moved, right_moved);
    }
}

/// A loss conceded at match point ends the match: when a tick reports that a
/// side whose opponent stands one point below the winning score let the ball
/// through, the same tick reports the match won by that opponent, records it,
/// and moves to the game-over screen.
pub proof fn lemma_match_point(
    s: GameSession,
    dt: int,
    left_up: bool,
    left_down: bool,
    right_up: bool,
    right_down: bool,
    swing: int,
    heads: bool,
)
    requires
        s.wf(),
        s.state == GameState::Gameplay,
    ensures
        ({
            let r = spec_session_tick(s, dt, left_up, left_down, right_up, right_down, swing, heads);
            &&& (r.1.round_lost == Some(DiceKind::Right) && s.score.left + 1
                >= s.board.winning_score ==> r.1.match_won == Some(DiceKind::Left) && r.0.state
                == GameState::GameOver && r.0.last_winner.player == Some(DiceKind::Left))
            &&& (r.1.round_lost == Some(DiceKind::Left) && s.score.right + 1
                >= s.board.winning_score ==> r.1.match_won == Some(DiceKind::Right) && r.0.state
                == GameState::GameOver && r.0.last_winner.player == Some(DiceKind::Right))
        }),
{
}

/// One tick's worth of input to the session, as ghost data: the elapsed
/// time, the four key states, and the random launch draw.
pub ghost struct TickArgs {
    pub dt: int,
    pub left_up: bool,
    pub left_down: bool,
    pub right_up: bool,
    pub right_down: bool,
    pub swing: int,
    pub heads: bool,
}

/// Arguments one tick accepts: a non-negative bounded duration and a swing
/// within the milli unit range.
pub open spec fn spec_tick_args_ok(a: TickArgs) -> bool {
    &&& 0 <= a.dt <= crate::config::DT_LIMIT as int
    &&& -1000 <= a.swing <= 1000
}

/// [`spec_session_tick`] applied to packed arguments.
pub open spec fn spec_apply_tick(s: GameSession, a: TickArgs) -> (GameSession, TickEvents) {
    spec_session_tick(s, a.dt, a.left_up, a.left_down, a.right_up, a.right_down, a.swing, a.heads)
}

/// The session after a whole sequence of ticks.
pub open spec fn spec_run_ticks(s: GameSession, args: Seq<TickArgs>) -> GameSession
    decreases args.len(),
{
    if args.len() == 0 {
        s
    } else {
        spec_run_ticks(spec_apply_tick(s, args[0]).0, args.drop_first())
    }
}

/// The wall-clock time a sequence of ticks spans.
pub open spec fn spec_total_time(args: Seq<TickArgs>) -> int
    decreases args.len(),
{
    if args.len() == 0 {
        0
    } else {
        args[0].dt + spec_total_time(args.drop_first())
    }
}

/// Valid tick sequences span a non-negative time.
pub proof fn lemma_total_time_nonneg(args: Seq<TickArgs>)
    requires
        forall|i: int| 0 <= i < args.len() ==> spec_tick_args_ok(#[trigger] args[i]),
    ensures
        spec_total_time(args) >= 0,
    decreases args.len(),
{
    if args.len() > 0 {
        assert(spec_tick_args_ok(args[0]));
        assert(forall|i: int|
            0 <= i < args.drop_first().len() ==> spec_tick_args_ok(
                #[trigger] args.drop_first()[i],
            ));
        lemma_total_time_nonneg(args.drop_first());
    }
}

/// While the launch timer is armed and the tick does not outlast it, a tick
/// only counts the timer down: the ball stays motionless at the center, no
/// signal fires, and everything but the paddles is untouched.
pub proof fn lemma_awaiting_tick(s: GameSession, a: TickArgs)
    requires
        s.wf(),
        s.state == GameState::Gameplay,
        spec_tick_args_ok(a),
        (s.pending_start matches Some(timer) && a.dt <= timer.remaining_ms),
    ensures
        ({
            let r = spec_apply_tick(s, a);
            &&& (r.1.round_lost is None)
            &&& (r.1.match_won is None)
            &&& r.0.wf()
            &&& r.0.state == GameState::Gameplay
            &&& r.0.board == s.board
            &&& r.0.score == s.score
            &&& r.0.last_winner == s.last_winner
            &&& r.0.ball == crate::ball::spec_ball_default()
            &&& (s.pending_start matches Some(timer) ==> r.0.pending_start == Some(
                crate::round::DelayedBallStart { remaining_ms: (timer.remaining_ms - a.dt) as i64 },
            ))
        }),
{
    let left_moved = Dice {
        y: crate::dice::spec_dice_y_step(
            s.board,
            s.left_dice.y as int,
            crate::dice::spec_axis_value(a.left_up, a.left_down),
            a.dt,
        ) as i64,
        ..Dice {
            axis_input: crate::dice::spec_axis_value(a.left_up, a.left_down) as i64,
            ..s.left_dice
        }
    };
    let right_moved = Dice {
        y: crate::dice::spec_dice_y_step(
            s.board,
            s.right_dice.y as int,
            crate::dice::spec_axis_value(a.right_up, a.right_down),
            a.dt,
        ) as i64,
        ..Dice {
            axis_input: crate::dice::spec_axis_value(a.right_up, a.right_down) as i64,
            ..s.right_dice
        }
    };
    crate::ball::lemma_awaiting_ball_inert(s.board, a.dt, left_moved, right_moved);
    crate::dice::lemma_moved_dice_wf(
        s.board,
        Dice {
            axis_input: crate::dice::spec_axis_value(a.left_up, a.left_down) as i64,
            ..s.left_dice
        },
        a.dt,
    );
    crate::dice::lemma_moved_dice_wf(
        s.board,
        Dice {
            axis_input: crate::dice::spec_axis_value(a.right_up, a.right_down) as i64,
            ..s.right_dice
        },
        a.dt,
    );
    crate::dice::lemma_anim_step_wf(left_moved, a.dt);
    crate::dice::lemma_anim_step_wf(right_moved, a.dt);
}

/// A tick that outlasts the armed launch timer launches the ball: the timer
/// is removed and the ball leaves with the direction picked by the tick's
/// random draw — a near-unit vector within 75 degrees of horizontal, so in
/// particular a nonzero velocity.
pub proof fn lemma_launch_fires(s: GameSession, a: TickArgs)
    requires
        s.wf(),
        s.state == GameState::Gameplay,
        spec_tick_args_ok(a),
        (s.pending_start matches Some(timer) && a.dt > timer.remaining_ms),
    ensures
        ({
            let r = spec_apply_tick(s, a);
            let v = crate::utils::spec_bounce_dir(a.swing, a.heads);
            &&& (r.1.round_lost is None)
            &&& (r.1.match_won is None)
            &&& r.0.state == GameState::Gameplay
            &&& (r.0.pending_start is None)
            &&& r.0.ball.velocity_x == v.x
            &&& r.0.ball.velocity_y == v.y
            &&& r.0.ball.velocity_x != 0
            &&& 998_000 <= r.0.ball.velocity_x * r.0.ball.velocity_x + r.0.ball.velocity_y
                * r.0.ball.velocity_y <= 1_000_000
        }),
{
    let left_moved = Dice {
        y: crate::dice::spec_dice_y_step(
            s.board,
            s.left_dice.y as int,
            crate::dice::spec_axis_value(a.left_up, a.left_down),
            a.dt,
        ) as i64,
        ..Dice {
            axis_input: crate::dice::spec_axis_value(a.left_up, a.left_down) as i64,
            ..s.left_dice
        }
    };
    let right_moved = Dice {
        y: crate::dice::spec_dice_y_step(
            s.board,
            s.right_dice.y as int,
            crate::dice::spec_axis_value(a.right_up, a.right_down),
            a.dt,
        ) as i64,
        ..Dice {
            axis_input: crate::dice::spec_axis_value(a.right_up, a.right_down) as i64,
            ..s.right_dice
        }
    };
    crate::ball::lemma_awaiting_ball_inert(s.board, a.dt, left_moved, right_moved);
    crate::utils::lemma_bounce_dir_props(a.swing, a.heads);
}

/// The launch delay is deterministic: as long as the ticks since the timer
/// was armed sum to no more than the delay, the ball holds zero velocity at
/// the field center, and the timer holds exactly the delay minus the elapsed
/// time; score, winner record and screen are untouched throughout.
pub proof fn lemma_launch_delay_holds(s: GameSession, args: Seq<TickArgs>)
    requires
        s.wf(),
        s.state == GameState::Gameplay,
        forall|i: int| 0 <= i < args.len() ==> spec_tick_args_ok(#[trigger] args[i]),
        (s.pending_start matches Some(timer) && spec_total_time(args) <= timer.remaining_ms),
    ensures
        ({
            let r = spec_run_ticks(s, args);
            &&& r.wf()
            &&& r.state == GameState::Gameplay
            &&& r.board == s.board
            &&& r.score == s.score
            &&& r.last_winner == s.last_winner
            &&& r.ball == crate::ball::spec_ball_default()
            &&& (s.pending_start matches Some(timer) ==> r.pending_start == Some(
                crate::round::DelayedBallStart {
                    remaining_ms: (timer.remaining_ms - spec_total_time(args)) as i64,
                },
            ))
        }),
    decreases args.len(),
{
    if args.len() > 0 {
        assert(spec_tick_args_ok(args[0]));
        assert(forall|i: int|
            0 <= i < args.drop_first().len() ==> spec_tick_args_ok(
                #[trigger] args.drop_first()[i],
            ));
        lemma_total_time_nonneg(args.drop_first());
        lemma_awaiting_tick(s, args[0]);
        let s1 = spec_apply_tick(s, args[0]).0;
        lemma_launch_delay_holds(s1, args.drop_first());
    }
}

} // verus!
