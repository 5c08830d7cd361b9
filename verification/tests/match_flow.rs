use pong_core::geom::Vec2;
use pong_core::input::{InputState, PaddleInput};
use pong_core::options::{KeyCode, PongOptions};
use pong_core::scoring::{check_point_scored, ScoredPointEvent};
use pong_core::state::{Ball, Paddle, Player, PongState, Score, Velocity};
use pong_core::tick::{tick, tick_ready};

const U: i64 = 1_000_000;

fn idle() -> InputState {
    let none = PaddleInput { up: false, down: false };
    InputState { player1: none, player2: none }
}

fn ball(x: i64, y: i64, vx: i64, vy: i64) -> Ball {
    Ball { pos: Vec2 { x, y }, vel: Velocity(Vec2 { x: vx, y: vy }) }
}

#[test]
fn new_state_matches_configuration() {
    let options = PongOptions::default();
    let s = PongState::new(&options, Vec2 { x: 30_000, y: 15_000 });
    // Paddles one paddle width in from the side walls: 300 - 5 = 295.
    assert_eq!(s.player1.pos, Vec2 { x: -295 * U, y: 0 });
    assert_eq!(s.player2.pos, Vec2 { x: 295 * U, y: 0 });
    assert_eq!(s.player1.score, Score(0));
    assert_eq!(s.player2.score, Score(0));
    assert_eq!(s.ball.pos, Vec2 { x: 0, y: 0 });
    assert_eq!(s.ball.vel, Velocity(Vec2 { x: 30_000, y: 15_000 }));
    assert_eq!(s.timer.elapsed, 0);
}

#[test]
fn default_key_bindings_are_distinct() {
    let options = PongOptions::default();
    let keys = [
        options.up_for(&Player::Player1),
        options.down_for(&Player::Player1),
        options.up_for(&Player::Player2),
        options.down_for(&Player::Player2),
    ];
    for i in 0..4 {
        for j in 0..4 {
            if i != j {
                assert_ne!(keys[i], keys[j]);
            }
        }
    }
    assert_eq!(options.up_for(&Player::Player1), KeyCode(0));
    assert_eq!(options.down_for(&Player::Player2), KeyCode(3));
}

#[test]
fn player_colors_follow_configuration() {
    let mut options = PongOptions::default();
    options.player.colors.1.r = 9;
    assert_eq!(options.color_for(&Player::Player1).r, 255);
    assert_eq!(options.color_for(&Player::Player2).r, 9);
}

#[test]
fn left_crossing_scores_right_player() {
    let options = PongOptions::default();
    let mut b = ball(-299 * U, 10 * U, -40_000, 5_000);
    let mut p1 = Paddle { pos: Vec2 { x: -295 * U, y: 30 * U }, score: Score(3) };
    let mut p2 = Paddle { pos: Vec2 { x: 295 * U, y: -40 * U }, score: Score(7) };
    let fresh = Vec2 { x: 25_000, y: -10_000 };
    let events = check_point_scored(&options, &mut b, &mut p1, &mut p2, fresh);
    assert_eq!(events.len(), 1);
    assert_eq!(events[0], ScoredPointEvent(Player::Player2, Score(8)));
    assert_eq!(b.pos, Vec2 { x: 0, y: 0 });
    assert_eq!(b.vel, Velocity(fresh));
    assert_eq!(p1.pos, Vec2 { x: -295 * U, y: 0 });
    assert_eq!(p2.pos, Vec2 { x: 295 * U, y: 0 });
    assert_eq!(p1.score, Score(3));
    assert_eq!(p2.score, Score(8));
}

#[test]
fn right_crossing_scores_left_player() {
    let options = PongOptions::default();
    let mut b = ball(293 * U, 0, 40_000, 0);
    let mut p1 = Paddle { pos: Vec2 { x: -295 * U, y: 0 }, score: Score(0) };
    let mut p2 = Paddle { pos: Vec2 { x: 295 * U, y: 0 }, score: Score(0) };
    let fresh = Vec2 { x: -25_000, y: 10_000 };
    let events = check_point_scored(&options, &mut b, &mut p1, &mut p2, fresh);
    assert_eq!(events.len(), 1);
    assert_eq!(events[0], ScoredPointEvent(Player::Player1, Score(1)));
    assert_eq!(b.pos, Vec2 { x: 0, y: 0 });
    assert_eq!(b.vel, Velocity(fresh));
}

#[test]
fn no_crossing_changes_nothing() {
    let options = PongOptions::default();
    let mut b = ball(100 * U, 50 * U, 40_000, -5_000);
    let mut p1 = Paddle { pos: Vec2 { x: -295 * U, y: 11 * U }, score: Score(2) };
    let mut p2 = Paddle { pos: Vec2 { x: 295 * U, y: -12 * U }, score: Score(4) };
    let events = check_point_scored(&options, &mut b, &mut p1, &mut p2, Vec2 { x: 1, y: 1 });
    assert!(events.is_empty());
    assert_eq!(b, ball(100 * U, 50 * U, 40_000, -5_000));
    assert_eq!(p1.pos.y, 11 * U);
    assert_eq!(p2.pos.y, -12 * U);
    assert_eq!(p1.score, Score(2));
    assert_eq!(p2.score, Score(4));
}

#[test]
fn e2e_ball_near_left_wall_scores_player2_and_resets() {
    // The ball stands at x = -299 with half width 7.5 in a 600 wide
    // arena: its left edge has crossed, so the next tick scores player
    // two and resets the ball to the center, whatever the velocity.
    let options = PongOptions::default();
    let mut s = PongState::new(&options, Vec2 { x: 17_000, y: -4_000 });
    s.ball.pos = Vec2 { x: -299 * U, y: 25 * U };
    let fresh = Vec2 { x: 30_000, y: 15_000 };
    assert!(tick_ready(&options, &s, 0, fresh));
    let events = tick(&options, &mut s, &idle(), 0, fresh);
    assert_eq!(events.len(), 1);
    assert_eq!(events[0], ScoredPointEvent(Player::Player2, Score(1)));
    assert_eq!(s.ball.pos, Vec2 { x: 0, y: 0 });
    assert_eq!(s.ball.vel, Velocity(fresh));
    assert_eq!(s.player1.pos.y, 0);
    assert_eq!(s.player2.pos.y, 0);
    assert_eq!(s.player1.score, Score(0));
    assert_eq!(s.player2.score, Score(1));
}

#[test]
fn tick_runs_the_whole_pipeline_in_order() {
    let options = PongOptions::default();
    let mut s = PongState::new(&options, Vec2 { x: 30_000, y: 15_000 });
    let input = InputState {
        player1: PaddleInput { up: true, down: false },
        player2: PaddleInput { up: false, down: true },
    };
    let fresh = Vec2 { x: 30_000, y: 15_000 };
    assert!(tick_ready(&options, &s, 100, fresh));
    let events = tick(&options, &mut s, &input, 100, fresh);
    assert!(events.is_empty());
    assert_eq!(s.player1.pos.y, 20 * U);
    assert_eq!(s.player2.pos.y, -20 * U);
    assert_eq!(s.ball.pos, Vec2 { x: 3 * U, y: 1_500_000 });
    assert_eq!(s.ball.vel, Velocity(Vec2 { x: 30_000, y: 15_000 }));
    assert_eq!(s.timer.elapsed, 100);
}

#[test]
fn tick_ready_rejects_what_tick_cannot_take() {
    let options = PongOptions::default();
    let s = PongState::new(&options, Vec2 { x: 30_000, y: 15_000 });
    let fresh = Vec2 { x: 30_000, y: 15_000 };
    assert!(!tick_ready(&options, &s, -1, fresh));
    assert!(!tick_ready(&options, &s, 100_000_001, fresh));
    assert!(!tick_ready(&options, &s, 100, Vec2 { x: 1_000_000_001, y: 0 }));
    let mut maxed = s;
    maxed.player1.score = Score(u16::MAX);
    assert!(!tick_ready(&options, &maxed, 100, fresh));
    assert!(tick_ready(&options, &s, 100, fresh));
}

#[test]
fn score_carries_across_ticks() {
    let options = PongOptions::default();
    let mut s = PongState::new(&options, Vec2 { x: 30_000, y: 15_000 });
    let fresh = Vec2 { x: -30_000, y: 15_000 };
    s.ball.pos = Vec2 { x: 299 * U, y: 0 };
    let events = tick(&options, &mut s, &idle(), 0, fresh);
    assert_eq!(events.len(), 1);
    s.ball.pos = Vec2 { x: 299 * U, y: 0 };
    let events = tick(&options, &mut s, &idle(), 0, fresh);
    assert_eq!(events[0], ScoredPointEvent(Player::Player1, Score(2)));
    assert_eq!(s.player1.score, Score(2));
}
