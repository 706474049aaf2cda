//! Behavioural tests for the pong library: paddle construction and
//! clamping, ball serving, collision and exit detection, scoring, the
//! pause state machine, and draw idempotence.

use pong_ping::ball::Ball;
use pong_ping::game::{Game, Input, State, SCORE_INCREMENT};
use pong_ping::paddle::{key_bindings, Key, Paddle};
use pong_ping::{SCREEN_HEIGHT, SCREEN_WIDTH};

fn no_input() -> Input {
    Input { space_pressed: false, p1_up: false, p1_down: false, p2_up: false, p2_down: false }
}

fn playing_game(ball: Ball) -> Game {
    Game {
        state: State::Playing,
        player_1: Paddle::new(1),
        player_2: Paddle::new(2),
        ball,
        p1_score: 0,
        p2_score: 0,
    }
}

#[test]
fn paddle_new_left_margin() {
    let p = Paddle::new(1);
    assert_eq!(p.id, 1);
    assert_eq!(p.x, 0);
    assert_eq!(p.y, SCREEN_HEIGHT / 2 - 32);
}

#[test]
fn paddle_new_right_margin() {
    let p = Paddle::new(2);
    assert_eq!(p.id, 2);
    assert_eq!(p.x, SCREEN_WIDTH - 16);
    assert_eq!(p.y, 208);
}

#[test]
fn paddle_control_moves_up_and_down() {
    let mut p = Paddle::new(1);
    p.control(true, false);
    assert_eq!(p.y, 198);
    p.control(false, true);
    assert_eq!(p.y, 208);
    p.control(true, true);
    assert_eq!(p.y, 208);
    p.control(false, false);
    assert_eq!(p.y, 208);
    assert_eq!(p.x, 0);
    assert_eq!(p.id, 1);
}

#[test]
fn paddle_control_clamps_at_top() {
    let mut p = Paddle::new(1);
    for _ in 0..100 {
        p.control(true, false);
        assert!(p.y >= 0);
        assert!(p.y <= SCREEN_HEIGHT - 64);
    }
    assert_eq!(p.y, 8);
    p.control(true, false);
    assert_eq!(p.y, 8);
}

#[test]
fn paddle_control_clamps_at_bottom() {
    let mut p = Paddle::new(2);
    for _ in 0..100 {
        p.control(false, true);
        assert!(p.y >= 0);
        assert!(p.y <= SCREEN_HEIGHT - 64);
    }
    assert_eq!(p.y, SCREEN_HEIGHT - 64 - 8);
    p.control(false, true);
    assert_eq!(p.y, 408);
}

#[test]
fn key_bindings_per_player() {
    assert_eq!(key_bindings(1), (Key::W, Key::S));
    assert_eq!(key_bindings(2), (Key::Up, Key::Down));
}

#[test]
fn ball_new_centred_with_unit_directions() {
    macroquad::rand::srand(7);
    let mut seen_x = (false, false);
    let mut seen_y = (false, false);
    for _ in 0..64 {
        let b = Ball::new();
        assert_eq!(b.x, SCREEN_WIDTH / 2 - 8);
        assert_eq!(b.y, SCREEN_HEIGHT / 2 - 8);
        assert!(b.dir.0 == 1 || b.dir.0 == -1);
        assert!(b.dir.1 == 1 || b.dir.1 == -1);
        if b.dir.0 == 1 {
            seen_x.0 = true;
        } else {
            seen_x.1 = true;
        }
        if b.dir.1 == 1 {
            seen_y.0 = true;
        } else {
            seen_y.1 = true;
        }
    }
    assert!(seen_x.0 && seen_x.1);
    assert!(seen_y.0 && seen_y.1);
}

#[test]
fn collide_flips_vertical_direction_at_top_wall() {
    let p1 = Paddle::new(1);
    let p2 = Paddle::new(2);
    let mut b = Ball { x: 300, y: 0, dir: (1, -1) };
    let r = b.collide(&p1, &p2);
    assert_eq!(r, (false, false));
    assert_eq!(b.dir.1, 1);
    assert_eq!(b.dir.0, 1);
    assert_eq!((b.x, b.y), (300, 0));
}

#[test]
fn collide_flips_vertical_direction_at_bottom_wall() {
    let p1 = Paddle::new(1);
    let p2 = Paddle::new(2);
    let mut b = Ball { x: 300, y: SCREEN_HEIGHT - 16, dir: (1, 1) };
    b.collide(&p1, &p2);
    assert_eq!(b.dir.1, -1);
}

#[test]
fn collide_forces_rightward_off_paddle_one() {
    let p1 = Paddle::new(1);
    let p2 = Paddle::new(2);
    let mut b = Ball { x: 10, y: 230, dir: (-1, 1) };
    let r = b.collide(&p1, &p2);
    assert_eq!(r, (false, false));
    assert_eq!(b.dir.0, 1);
}

#[test]
fn collide_forces_leftward_off_paddle_two() {
    let p1 = Paddle::new(1);
    let p2 = Paddle::new(2);
    let mut b = Ball { x: SCREEN_WIDTH - 10, y: 230, dir: (1, -1) };
    let r = b.collide(&p1, &p2);
    assert_eq!(r, (false, false));
    assert_eq!(b.dir.0, -1);
}

#[test]
fn collide_reports_left_exit_only() {
    let p1 = Paddle::new(1);
    let p2 = Paddle::new(2);
    let positions: [i32; 2] = [-16, -20];
    for x in positions {
        let mut b = Ball { x, y: 100, dir: (-1, 1) };
        let r = b.collide(&p1, &p2);
        assert_eq!(r, (true, false));
        assert!(!(r.0 && r.1));
    }
}

#[test]
fn collide_reports_right_exit_only() {
    let p1 = Paddle::new(1);
    let p2 = Paddle::new(2);
    let positions: [i32; 2] = [SCREEN_WIDTH, SCREEN_WIDTH + 4];
    for x in positions {
        let mut b = Ball { x, y: 100, dir: (1, 1) };
        let r = b.collide(&p1, &p2);
        assert_eq!(r, (false, true));
        assert!(!(r.0 && r.1));
    }
}

#[test]
fn collide_reports_no_exit_on_the_field() {
    let p1 = Paddle::new(1);
    let p2 = Paddle::new(2);
    let mut b = Ball { x: 300, y: 100, dir: (1, 1) };
    assert_eq!(b.collide(&p1, &p2), (false, false));
}

#[test]
fn move_dir_advances_by_speed() {
    let mut b = Ball { x: 300, y: 100, dir: (1, -1) };
    b.move_dir();
    assert_eq!((b.x, b.y), (306, 94));
    assert_eq!(b.dir, (1, -1));
    b.dir = (-1, 1);
    b.move_dir();
    assert_eq!((b.x, b.y), (300, 100));
}

#[test]
fn left_exit_scores_for_player_two_and_resets() {
    let mut b = Ball { x: -20, y: 200, dir: (-1, 1) };
    let r = b.collide(&Paddle::new(1), &Paddle::new(2));
    assert_eq!(r, (true, false));

    let mut g = playing_game(Ball { x: -20, y: 200, dir: (-1, 1) });
    g.frame(no_input());
    assert_eq!(g.p2_score, SCORE_INCREMENT);
    assert_eq!(g.p1_score, 0);
    assert_eq!(g.state, State::Paused);
    assert_eq!(g.player_1, Paddle::new(1));
    assert_eq!(g.player_2, Paddle::new(2));
    assert_eq!(g.ball.x, SCREEN_WIDTH / 2 - 8);
    assert_eq!(g.ball.y, SCREEN_HEIGHT / 2 - 8);
    assert!(g.ball.dir.0 == 1 || g.ball.dir.0 == -1);
    assert!(g.ball.dir.1 == 1 || g.ball.dir.1 == -1);
}

#[test]
fn right_exit_scores_for_player_one_and_resets() {
    let mut g = playing_game(Ball { x: 644, y: 100, dir: (1, 1) });
    g.frame(no_input());
    assert_eq!(g.p1_score, SCORE_INCREMENT);
    assert_eq!(g.p2_score, 0);
    assert_eq!(g.state, State::Paused);
}

#[test]
fn scores_accumulate_across_points() {
    let mut g = playing_game(Ball { x: -20, y: 200, dir: (-1, 1) });
    g.frame(no_input());
    assert_eq!(g.p2_score, 100);
    g.state = State::Playing;
    g.ball = Ball { x: -20, y: 200, dir: (-1, 1) };
    g.frame(no_input());
    assert_eq!(g.p2_score, 200);
    assert_eq!(g.p1_score, 0);
}

#[test]
fn space_edge_starts_play_exactly_once() {
    let mut g = Game::new();
    assert_eq!(g.state, State::Paused);

    let mut held = no_input();
    held.p1_up = true;
    g.frame(held);
    assert_eq!(g.state, State::Paused);

    let mut edge = no_input();
    edge.space_pressed = true;
    g.frame(edge);
    assert_eq!(g.state, State::Playing);

    for _ in 0..5 {
        g.frame(no_input());
        assert_eq!(g.state, State::Playing);
    }
    let mut held_space = no_input();
    held_space.space_pressed = true;
    g.frame(held_space);
    assert_eq!(g.state, State::Playing);
    assert_eq!(g.p1_score, 0);
    assert_eq!(g.p2_score, 0);
}

#[test]
fn paused_frame_leaves_entities_alone() {
    let mut g = Game::new();
    let before = g;
    g.frame(no_input());
    assert_eq!(g, before);
    let mut steer = no_input();
    steer.p1_up = true;
    steer.p2_down = true;
    g.frame(steer);
    assert_eq!(g, before);
}

#[test]
fn draw_is_idempotent() {
    let p = Paddle::new(1);
    let first = p.draw();
    let second = p.draw();
    assert_eq!(first, second);
    assert_eq!((first.x, first.y, first.w, first.h), (0, 208, 16, 64));
    assert_eq!(p, Paddle::new(1));

    let b = Ball { x: 300, y: 100, dir: (1, 1) };
    let r1 = b.draw();
    let r2 = b.draw();
    assert_eq!(r1, r2);
    assert_eq!((r1.x, r1.y, r1.w, r1.h), (300, 100, 16, 16));
    assert_eq!(b, Ball { x: 300, y: 100, dir: (1, 1) });

    let g = Game::new();
    let p1_rect = g.player_1.draw();
    let ball_rect = g.ball.draw();
    let again = (g.player_1.draw(), g.ball.draw());
    assert_eq!((p1_rect, ball_rect), again);
    assert_eq!(g.p1_score, 0);
    assert_eq!(g.p2_score, 0);
}

#[test]
fn playing_frame_steers_both_paddles() {
    let mut g = Game::new();
    let mut edge = no_input();
    edge.space_pressed = true;
    g.frame(edge);
    let mut steer = no_input();
    steer.p1_up = true;
    steer.p2_down = true;
    g.frame(steer);
    assert_eq!(g.player_1.y, 198);
    assert_eq!(g.player_2.y, 218);
    assert_eq!(g.state, State::Playing);
}
