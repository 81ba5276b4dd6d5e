//! Tests for the running simulation: paddle clamping, wall and paddle
//! collisions, scoring, the match state machine, the launch delay, and the
//! bounce-feedback animation.

use dice_pong::ball::update_ball;
use dice_pong::ball::Ball;
use dice_pong::config::BoardConfig;
use dice_pong::dice::trigger_bounce;
use dice_pong::dice::update_dice_animation;
use dice_pong::dice::update_dices;
use dice_pong::dice::Dice;
use dice_pong::round::next_round;
use dice_pong::round::DelayedBallStart;
use dice_pong::round::Score;
use dice_pong::session::GameSession;
use dice_pong::utils::DiceKind;
use dice_pong::GameState;
use dice_pong::LastWinner;

fn spawned_dices(board: &BoardConfig) -> (Dice, Dice) {
    (Dice::spawn(DiceKind::Left, board), Dice::spawn(DiceKind::Right, board))
}

#[test]
fn paddles_never_leave_their_travel_range() {
    let board = BoardConfig::standard();
    let (mut left, mut right) = spawned_dices(&board);
    left.axis_input = 1000;
    right.axis_input = -1000;
    // 10 seconds at 1000 px/s would be 10000 px, far past the 275 px bound
    for _ in 0..3 {
        update_dices(&board, 10_000, &mut left, &mut right);
        assert_eq!(left.y, 275_000);
        assert_eq!(right.y, -275_000);
    }
    left.axis_input = -1000;
    update_dices(&board, 100, &mut left, &mut right);
    // one 100 ms tick moves 100 px back down
    assert_eq!(left.y, 175_000);
}

#[test]
fn tick_samples_input_and_moves_the_paddles() {
    let board = BoardConfig::standard();
    let mut session = GameSession::new(board);
    // 100 ms with the left paddle's up key held: 100 px up; the right
    // paddle's down key: 100 px down
    session.tick(100, true, false, false, true);
    assert_eq!(session.left_dice.axis_input, 1000);
    assert_eq!(session.right_dice.axis_input, -1000);
    assert_eq!(session.left_dice.y, 100_000);
    assert_eq!(session.right_dice.y, -100_000);
    // both keys held cancel out
    session.tick(100, true, true, false, false);
    assert_eq!(session.left_dice.y, 100_000);
}

#[test]
fn wall_reflection_flips_once_per_crossing() {
    let board = BoardConfig::standard();
    let (mut left, mut right) = spawned_dices(&board);
    let mut ball = Ball { y: 329_000, velocity_y: 1000, ..Ball::default() };
    // 100 ms at 400 px/s straight up: 40 px, past the wall line at 330 px
    let lost = update_ball(&board, 100, &mut ball, &mut left, &mut right);
    assert_eq!(lost, None);
    assert_eq!(ball.y, 369_000);
    assert_eq!(ball.velocity_y, -1000);
    assert!(ball.is_colliding_y);
    // a zero-length tick while still overlapping must not flip again
    update_ball(&board, 0, &mut ball, &mut left, &mut right);
    assert_eq!(ball.velocity_y, -1000);
    assert!(ball.is_colliding_y);
    // once back inside, the latch clears
    update_ball(&board, 200, &mut ball, &mut left, &mut right);
    assert_eq!(ball.y, 289_000);
    assert!(!ball.is_colliding_y);
}

#[test]
fn paddle_hit_reverses_and_recoils() {
    let board = BoardConfig::standard();
    let (mut left, mut right) = spawned_dices(&board);
    // heading right, 10 ms from crossing the right axis at 400 px, paddle
    // centered on the ball's height
    let mut ball = Ball { x: 399_000, velocity_x: 1000, ..Ball::default() };
    let lost = update_ball(&board, 10, &mut ball, &mut left, &mut right);
    assert_eq!(lost, None);
    assert_eq!(ball.x, 403_000);
    assert_eq!(ball.velocity_x, -1000);
    assert_eq!(ball.velocity_y, 0);
    assert!(ball.is_colliding_x);
    assert!(!ball.is_lost);
    let anim = right.bounce.expect("hit must start the recoil feedback");
    assert_eq!(anim.original_x, 440_000);
    assert!(!anim.offset_reached);
    assert!(left.bounce.is_none());
}

#[test]
fn miss_latches_lost_and_scores_exactly_once() {
    let board = BoardConfig::standard();
    let (mut left, mut right) = spawned_dices(&board);
    // the right paddle sits far above the ball's path
    right.y = 300_000;
    let mut ball = Ball { x: 399_000, velocity_x: 1000, ..Ball::default() };
    let lost = update_ball(&board, 10, &mut ball, &mut left, &mut right);
    assert_eq!(lost, None);
    assert!(ball.is_lost);
    assert!(!ball.is_colliding_x);
    assert!(right.bounce.is_none());
    // still inside the field: no signal yet, and no second evaluation
    let lost = update_ball(&board, 100, &mut ball, &mut left, &mut right);
    assert_eq!(lost, None);
    assert!(ball.is_lost);
    // one second later the ball is far past the right edge: one signal
    let lost = update_ball(&board, 1000, &mut ball, &mut left, &mut right);
    assert_eq!(lost, Some(DiceKind::Right));
}

#[test]
fn two_losses_win_the_match_for_the_opponent() {
    let board = BoardConfig::standard();
    let mut score = Score { left: 0, right: 0 };
    let mut ball = Ball::default();
    let mut pending: Option<DelayedBallStart> = None;
    let mut last_winner = LastWinner::default();
    let mut state = GameState::Gameplay;
    let won = next_round(
        &board,
        &mut score,
        &mut ball,
        &mut pending,
        &mut last_winner,
        &mut state,
        Some(DiceKind::Right),
    );
    assert_eq!(won, None);
    assert_eq!(score.left, 1);
    assert_eq!(score.right, 0);
    assert_eq!(state, GameState::Gameplay);
    assert_eq!(pending.expect("round reset re-arms the timer").remaining_ms, 1500);
    let won = next_round(
        &board,
        &mut score,
        &mut ball,
        &mut pending,
        &mut last_winner,
        &mut state,
        Some(DiceKind::Right),
    );
    assert_eq!(won, Some(DiceKind::Left));
    assert_eq!(score.left, 2);
    assert_eq!(state, GameState::GameOver);
    assert_eq!(last_winner.player, Some(DiceKind::Left));
}

#[test]
fn game_over_session_is_inert() {
    let board = BoardConfig::standard();
    let mut session = GameSession::new(board);
    session.state = GameState::GameOver;
    let before_score = (session.score.left, session.score.right);
    let ev = session.tick(1000, true, false, false, true);
    assert!(ev.round_lost.is_none());
    assert!(ev.match_won.is_none());
    assert_eq!(session.state, GameState::GameOver);
    assert_eq!((session.score.left, session.score.right), before_score);
}

#[test]
fn launch_waits_out_the_full_delay() {
    let board = BoardConfig::standard();
    let mut session = GameSession::new(board);
    // 1000 ms + 500 ms = exactly the 1500 ms delay: still held
    session.tick(1000, false, false, false, false);
    assert_eq!(session.ball.velocity_x, 0);
    assert_eq!(session.ball.velocity_y, 0);
    assert_eq!(session.pending_start.unwrap().remaining_ms, 500);
    session.tick(500, false, false, false, false);
    assert_eq!(session.ball.velocity_x, 0);
    assert!(session.pending_start.is_some());
    // one more millisecond tips the timer below zero: launched
    session.tick(1, false, false, false, false);
    assert!(session.pending_start.is_none());
    let (vx, vy) = (session.ball.velocity_x, session.ball.velocity_y);
    assert_ne!(vx, 0);
    let mag = vx * vx + vy * vy;
    assert!((998_000..=1_000_000).contains(&mag));
    assert!(vx.abs() >= 258);
}

#[test]
fn session_round_loss_resets_and_rearms() {
    let board = BoardConfig::standard();
    let mut session = GameSession::new(board);
    session.pending_start = None;
    session.ball = Ball { x: 499_000, velocity_x: 1000, is_lost: true, ..Ball::default() };
    let ev = session.tick(100, false, false, false, false);
    assert_eq!(ev.round_lost, Some(DiceKind::Right));
    assert_eq!(ev.match_won, None);
    assert_eq!(session.score.left, 1);
    assert_eq!(session.ball.x, 0);
    assert_eq!(session.ball.velocity_x, 0);
    assert!(!session.ball.is_lost);
    assert_eq!(session.pending_start.unwrap().remaining_ms, 1500);
    // the freshly re-armed ball cannot lose again on the next tick
    let ev = session.tick(10_000, false, false, false, false);
    assert!(ev.round_lost.is_none());
}

#[test]
fn feedback_animation_runs_out_and_snaps_back() {
    let board = BoardConfig::standard();
    let (_, mut right) = spawned_dices(&board);
    assert_eq!(right.x, 440_000);
    trigger_bounce(&mut right);
    // 10 ms at 300 px/s moves 3 px outward
    update_dice_animation(&mut right, 10);
    assert_eq!(right.x, 443_000);
    assert!(!right.bounce.unwrap().offset_reached);
    update_dice_animation(&mut right, 10);
    assert_eq!(right.x, 446_000);
    assert!(right.bounce.unwrap().offset_reached);
    update_dice_animation(&mut right, 10);
    assert_eq!(right.x, 443_000);
    update_dice_animation(&mut right, 10);
    assert_eq!(right.x, 440_000);
    assert!(right.bounce.is_none(), "the finished animation is removed");
}

#[test]
fn feedback_does_not_stack() {
    let board = BoardConfig::standard();
    let (_, mut right) = spawned_dices(&board);
    trigger_bounce(&mut right);
    let first = right.bounce.unwrap();
    trigger_bounce(&mut right);
    let second = right.bounce.unwrap();
    assert_eq!(first.original_x, second.original_x);
    assert!(!second.offset_reached);
    // mid-animation, a re-trigger re-roots the single animation at the
    // paddle's current (displaced) position rather than stacking another
    update_dice_animation(&mut right, 10);
    trigger_bounce(&mut right);
    let rerooted = right.bounce.unwrap();
    assert_eq!(rerooted.original_x, 443_000);
    assert!(!rerooted.offset_reached);
}

#[test]
fn ball_and_score_reset() {
    let mut ball = Ball { x: 5, y: 6, velocity_x: 7, velocity_y: 8, is_lost: true, ..Ball::default() };
    ball.reset();
    assert_eq!((ball.x, ball.y), (5, 6), "reset keeps the position");
    assert_eq!((ball.velocity_x, ball.velocity_y), (0, 0));
    assert!(!ball.is_lost && !ball.is_colliding_x && !ball.is_colliding_y);
    let mut score = Score { left: 3, right: 4 };
    score.reset();
    assert_eq!((score.left, score.right), (0, 0));
}

#[test]
fn enter_gameplay_starts_fresh_but_keeps_the_winner() {
    let board = BoardConfig::standard();
    let mut session = GameSession::new(board);
    session.score = Score { left: 2, right: 0 };
    session.state = GameState::GameOver;
    session.last_winner = LastWinner { player: Some(DiceKind::Left) };
    session.enter_gameplay();
    assert_eq!(session.state, GameState::Gameplay);
    assert_eq!((session.score.left, session.score.right), (0, 0));
    assert_eq!(session.ball.x, 0);
    assert_eq!(session.pending_start.unwrap().remaining_ms, 1500);
    assert_eq!(session.last_winner.player, Some(DiceKind::Left));
}
