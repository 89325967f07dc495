use pong_core::ball::{Ball, BallOutDirection};
use pong_core::config::Config;
use pong_core::game::{GameState, Intents, Match};
use pong_core::paddle::{Paddle, PaddleDirection};

fn no_intents() -> Intents {
    Intents { p1_up: false, p1_down: false, p2_up: false, p2_down: false }
}

#[test]
fn standard_config_values() {
    let cfg = Config::standard();
    assert_eq!(cfg.max_x, 412_000);
    assert_eq!(cfg.max_y, 240_000);
    assert_eq!(cfg.serve_speed, 100);
    assert_eq!(cfg.paddle_speed, 200);
}

#[test]
fn paddle_update_moves_exactly() {
    let cfg = Config::standard();
    let mut p = Paddle::new(
        10_000,
        30_000,
        cfg.paddle_width,
        cfg.paddle_height,
        cfg.max_x,
        cfg.max_y,
        PaddleDirection::LEFT,
    );
    p.set_dy(200);
    p.update(100);
    assert_eq!(p.y, 50_000);
    p.set_dy(-200);
    p.update(50);
    assert_eq!(p.y, 40_000);
}

#[test]
fn paddle_update_clamps_at_top() {
    let cfg = Config::standard();
    let mut p = Paddle::new(
        10_000,
        5_000,
        cfg.paddle_width,
        cfg.paddle_height,
        cfg.max_x,
        cfg.max_y,
        PaddleDirection::LEFT,
    );
    p.set_dy(-200);
    p.update(1_000_000);
    assert_eq!(p.y, 0);
    // Clamping, not bouncing: a second large step stays at the wall.
    p.update(1_000_000);
    assert_eq!(p.y, 0);
}

#[test]
fn paddle_update_clamps_at_bottom() {
    let cfg = Config::standard();
    let mut p = Paddle::new(
        10_000,
        200_000,
        cfg.paddle_width,
        cfg.paddle_height,
        cfg.max_x,
        cfg.max_y,
        PaddleDirection::LEFT,
    );
    p.set_dy(200);
    p.update(1_000_000);
    assert_eq!(p.y, cfg.max_y - cfg.paddle_height);
}

#[test]
fn bounce_flips_at_walls_and_twice_restores() {
    let cfg = Config::standard();
    let mut b = Ball::new_with(100_000, 0, 4_000, 4_000, &cfg, true, 42);
    assert_eq!(b.dy, 42);
    b.bounce(cfg.max_y);
    assert_eq!(b.dy, -42);
    b.bounce(cfg.max_y);
    assert_eq!(b.dy, 42);
    // Away from both walls nothing changes.
    let mut mid = Ball::new_with(100_000, 120_000, 4_000, 4_000, &cfg, true, 42);
    mid.bounce(cfg.max_y);
    assert_eq!(mid.dy, 42);
}

#[test]
fn check_out_partitions_the_axis() {
    let cfg = Config::standard();
    let b = |x: i64| Ball::new_with(x, 120_000, 4_000, 4_000, &cfg, true, 0);
    assert_eq!(b(-4_000).check_out(cfg.max_x), BallOutDirection::LEFT);
    assert_eq!(b(-3_999).check_out(cfg.max_x), BallOutDirection::NONE);
    assert_eq!(b(0).check_out(cfg.max_x), BallOutDirection::NONE);
    assert_eq!(b(412_000).check_out(cfg.max_x), BallOutDirection::NONE);
    assert_eq!(b(412_001).check_out(cfg.max_x), BallOutDirection::RIGHT);
}

#[test]
fn reset_serves_toward_the_conceding_side() {
    let cfg = Config::standard();
    let mut b = Ball::new_with(0, 0, 4_000, 4_000, &cfg, true, 0);
    b.reset(cfg.max_x, cfg.max_y, BallOutDirection::LEFT, &cfg);
    assert_eq!(b.dx, -100);
    assert_eq!(b.x, 204_000);
    assert_eq!(b.y, 118_000);
    b.reset(cfg.max_x, cfg.max_y, BallOutDirection::RIGHT, &cfg);
    assert_eq!(b.dx, 100);
    assert!(b.dy >= cfg.serve_dy_min && b.dy < cfg.serve_dy_max);
}

#[test]
fn reset_without_a_side_randomizes_the_direction() {
    let cfg = Config::standard();
    let mut b = Ball::new_with(0, 0, 4_000, 4_000, &cfg, true, 0);
    let mut saw_left = false;
    let mut saw_right = false;
    for _ in 0..1000 {
        b.reset(cfg.max_x, cfg.max_y, BallOutDirection::NONE, &cfg);
        assert!(b.dx == 100 || b.dx == -100);
        if b.dx < 0 {
            saw_left = true;
        } else {
            saw_right = true;
        }
    }
    assert!(saw_left && saw_right);
}

#[test]
fn new_ball_serves_at_serve_speed_both_signs_occur() {
    let cfg = Config::standard();
    let mut saw_left = false;
    let mut saw_right = false;
    for _ in 0..1000 {
        let b = Ball::new(204_000, 118_000, 4_000, 4_000, &cfg);
        assert!(b.dx == 100 || b.dx == -100);
        assert!(b.dy >= cfg.serve_dy_min && b.dy < cfg.serve_dy_max);
        if b.dx < 0 {
            saw_left = true;
        } else {
            saw_right = true;
        }
    }
    assert!(saw_left && saw_right);
}

#[test]
fn collision_reverses_and_amplifies() {
    let cfg = Config::standard();
    let p = Paddle::new(
        10_000,
        110_000,
        cfg.paddle_width,
        cfg.paddle_height,
        cfg.max_x,
        cfg.max_y,
        PaddleDirection::LEFT,
    );
    // Ball overlapping the left paddle, moving left, drifting up.
    let mut b = Ball::new_with(12_000, 112_000, 4_000, 4_000, &cfg, false, -30);
    assert_eq!(b.dx, -100);
    b.collides_with(&p, &cfg, 77);
    // Reversed and amplified: 100 * 103 / 100 = 103, now rightward.
    assert_eq!(b.dx, 103);
    // Nudged away from the left edge by 13/10 of the paddle width.
    assert_eq!(b.x, 12_000 + 6_500);
    // Vertical speed redrawn to the given magnitude, sign kept.
    assert_eq!(b.dy, -77);
    assert_eq!(b.y, 112_000);
}

#[test]
fn collision_misses_leave_the_ball_alone() {
    let cfg = Config::standard();
    let p = Paddle::new(
        10_000,
        110_000,
        cfg.paddle_width,
        cfg.paddle_height,
        cfg.max_x,
        cfg.max_y,
        PaddleDirection::LEFT,
    );
    let before = Ball::new_with(200_000, 112_000, 4_000, 4_000, &cfg, false, -30);
    let mut b = before;
    b.collides_with(&p, &cfg, 77);
    assert_eq!(b, before);
    b.collides(&p, &cfg);
    assert_eq!(b, before);
}

#[test]
fn rally_speed_escalates_hit_after_hit() {
    let cfg = Config::standard();
    let left = Paddle::new(
        10_000,
        110_000,
        cfg.paddle_width,
        cfg.paddle_height,
        cfg.max_x,
        cfg.max_y,
        PaddleDirection::LEFT,
    );
    let mut b = Ball::new_with(12_000, 112_000, 4_000, 4_000, &cfg, false, 30);
    let mut last_mag: i64 = 100;
    for _ in 0..10 {
        b.x = 12_000;
        b.dx = -last_mag;
        b.collides_with(&left, &cfg, 50);
        assert!(b.dx > last_mag);
        last_mag = b.dx;
    }
    // 100 amplified ten times by 103/100 with truncation.
    assert_eq!(last_mag, 130);
}

#[test]
fn match_starts_in_start_with_zero_scores() {
    let m = Match::new(Config::standard());
    assert_eq!(m.game_state, GameState::Start);
    assert_eq!(m.player_score_1, 0);
    assert_eq!(m.player_score_2, 0);
    assert_eq!(m.ball.x, 204_000);
    assert_eq!(m.ball.y, 118_000);
}

#[test]
fn confirm_toggles_between_the_two_phases() {
    let mut m = Match::new(Config::standard());
    m.confirm();
    assert_eq!(m.game_state, GameState::Play);
    m.confirm();
    assert_eq!(m.game_state, GameState::Start);
}

#[test]
fn ball_is_frozen_in_start_even_for_large_dt() {
    let mut m = Match::new_with(Config::standard(), true, 42);
    let ball_before = m.ball;
    m.update(1_000_000, no_intents());
    assert_eq!(m.ball, ball_before);
    assert_eq!(m.player_score_1, 0);
    assert_eq!(m.player_score_2, 0);
}

#[test]
fn paddles_move_even_in_start() {
    let mut m = Match::new_with(Config::standard(), true, 42);
    let y_before = m.player_1.y;
    let intents = Intents { p1_up: false, p1_down: true, p2_up: true, p2_down: false };
    m.update(100, intents);
    assert_eq!(m.player_1.y, y_before + 20_000);
    assert_eq!(m.player_2.y, 210_000 - 20_000);
}

#[test]
fn up_takes_precedence_over_down() {
    let mut m = Match::new_with(Config::standard(), true, 42);
    let intents = Intents { p1_up: true, p1_down: true, p2_up: false, p2_down: false };
    m.update(50, intents);
    assert_eq!(m.player_1.y, 30_000 - 10_000);
}

#[test]
fn ball_integrates_exactly_while_in_play() {
    let mut m = Match::new_with(Config::standard(), true, 42);
    m.confirm();
    m.update_with(100, no_intents(), 10, 10, 0);
    // Serve moving right at 100 with dy 42 over 100 ms, no contact.
    assert_eq!(m.ball.x, 204_000 + 10_000);
    assert_eq!(m.ball.y, 118_000 + 4_200);
    assert_eq!(m.player_score_1, 0);
    assert_eq!(m.player_score_2, 0);
}

#[test]
fn left_exit_scores_for_the_right_side_and_reserves() {
    let mut m = Match::new_with(Config::standard(), true, 0);
    m.confirm();
    assert_eq!(m.game_state, GameState::Play);
    m.ball.x = -m.ball.width - 1;
    m.update_with(0, no_intents(), 10, 10, 25);
    assert_eq!(m.player_score_2, 1);
    assert_eq!(m.player_score_1, 0);
    assert_eq!(m.ball.x, 204_000);
    assert_eq!(m.ball.y, 118_000);
    // Re-served toward the side that conceded.
    assert_eq!(m.ball.dx, -100);
    assert_eq!(m.ball.dy, 25);
}

#[test]
fn right_exit_scores_for_the_left_side() {
    let mut m = Match::new_with(Config::standard(), true, 0);
    m.confirm();
    m.ball.x = m.cfg.max_x + 1;
    m.update_with(0, no_intents(), 10, 10, 25);
    assert_eq!(m.player_score_1, 1);
    assert_eq!(m.player_score_2, 0);
    assert_eq!(m.ball.dx, 100);
}

#[test]
fn wall_contact_flips_vertical_velocity_during_a_frame() {
    let mut m = Match::new_with(Config::standard(), true, -74);
    m.confirm();
    m.ball.y = 100;
    // 2 ms at dy = -74 reaches y = -48, below the top wall.
    m.update_with(2, no_intents(), 10, 10, 0);
    assert_eq!(m.ball.y, -48);
    assert_eq!(m.ball.dy, 74);
}
