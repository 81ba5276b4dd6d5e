//! Tests for the fixed-point geometry: bounce directions, paddle travel
//! bounds, and the board configuration.

use dice_pong::ball::calculate_dice_collision;
use dice_pong::config::BoardConfig;
use dice_pong::dice::axis_value;
use dice_pong::utils::get_random_starting_angle;
use dice_pong::utils::DiceKind;
use dice_pong::utils::Vec2;

#[test]
fn standard_board_is_well_formed() {
    let board = BoardConfig::standard();
    assert!(board.is_well_formed());
    assert_eq!(board.width, 1_000_000);
    assert_eq!(board.height, 700_000);
    assert_eq!(board.dice_length, 150_000);
    assert_eq!(board.dice_offset, 100_000);
    assert_eq!(board.ball_speed, 400_000);
    assert_eq!(board.ball_radius, 20_000);
    assert_eq!(board.winning_score, 2);
    assert_eq!(board.start_delay, 1500);
}

#[test]
fn degenerate_board_is_rejected() {
    let mut board = BoardConfig::standard();
    board.dice_length = board.height;
    assert!(!board.is_well_formed());
}

#[test]
fn max_dice_position_leaves_half_paddle_margin() {
    let board = BoardConfig::standard();
    // 700 / 2 - 150 / 2 = 275 pixels
    assert_eq!(board.max_dice_position(true), 275_000);
    assert_eq!(board.max_dice_position(false), -275_000);
}

#[test]
fn axis_collapses_opposing_keys() {
    assert_eq!(axis_value(false, false), 0);
    assert_eq!(axis_value(true, true), 0);
    assert_eq!(axis_value(true, false), 1000);
    assert_eq!(axis_value(false, true), -1000);
}

#[test]
fn center_hit_bounces_straight_back() {
    // paddle center at y = 0, half length 75 px, quarter ball 10 px
    let right = calculate_dice_collision(0, 10_000, 0, 75_000, DiceKind::Right);
    assert_eq!(right, Some(Vec2 { x: -1000, y: 0 }));
    let left = calculate_dice_collision(0, 10_000, 0, 75_000, DiceKind::Left);
    assert_eq!(left, Some(Vec2 { x: 1000, y: 0 }));
}

#[test]
fn edge_hit_bounces_at_the_maximum_angle() {
    // ball at the very bottom of the widened window: full positive shift,
    // 75 degrees of deflection downward
    let v = calculate_dice_collision(-85_000, 10_000, 0, 75_000, DiceKind::Right).unwrap();
    assert_eq!(v, Vec2 { x: -262, y: -965 });
    let w = calculate_dice_collision(85_000, 10_000, 0, 75_000, DiceKind::Left).unwrap();
    assert_eq!(w, Vec2 { x: 262, y: 965 });
}

#[test]
fn half_shift_bounces_at_half_the_maximum_angle() {
    // a hit halfway down the window: shift 0.5, so 37.5 degrees downward;
    // the fixed-point sine of 37.5 degrees is exactly 608
    let v = calculate_dice_collision(-42_500, 10_000, 0, 75_000, DiceKind::Right).unwrap();
    assert_eq!(v, Vec2 { x: -793, y: -608 });
}

#[test]
fn outside_the_window_is_a_miss() {
    assert_eq!(calculate_dice_collision(-85_001, 10_000, 0, 75_000, DiceKind::Right), None);
    assert_eq!(calculate_dice_collision(85_001, 10_000, 0, 75_000, DiceKind::Right), None);
}

#[test]
fn random_starting_angle_is_near_unit_and_mostly_horizontal() {
    for _ in 0..200 {
        let v = get_random_starting_angle();
        let mag = v.x * v.x + v.y * v.y;
        assert!((998_000..=1_000_000).contains(&mag));
        assert!(v.x.abs() >= 258 && v.x.abs() <= 1000);
        assert!(v.y.abs() <= 966);
    }
}
