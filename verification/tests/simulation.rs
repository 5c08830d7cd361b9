use pong_core::geom::Vec2;
use pong_core::input::{handle_player_input, InputState, PaddleInput};
use pong_core::options::PongOptions;
use pong_core::physics::apply_ball_velocity;
use pong_core::state::{Ball, Paddle, Score, Velocity};
use pong_core::timer::{speedup_ball, BallSpeedupTimer};

const U: i64 = 1_000_000;

fn idle() -> PaddleInput {
    PaddleInput { up: false, down: false }
}

fn paddle_at(y: i64) -> Paddle {
    Paddle { pos: Vec2 { x: -295 * U, y }, score: Score(0) }
}

fn ball(x: i64, y: i64, vx: i64, vy: i64) -> Ball {
    Ball { pos: Vec2 { x, y }, vel: Velocity(Vec2 { x: vx, y: vy }) }
}

#[test]
fn paddle_moves_up_while_key_held() {
    let options = PongOptions::default();
    let input = InputState { player1: PaddleInput { up: true, down: false }, player2: idle() };
    let mut p1 = paddle_at(0);
    let mut p2 = paddle_at(0);
    // 200 world units per second over 100 ms is 20 world units.
    handle_player_input(&options, 100, &input, &mut p1, &mut p2);
    assert_eq!(p1.pos.y, 20 * U);
    assert_eq!(p1.pos.x, -295 * U);
    assert_eq!(p2.pos.y, 0);
}

#[test]
fn paddle_moves_down_while_key_held() {
    let options = PongOptions::default();
    let input = InputState { player1: idle(), player2: PaddleInput { up: false, down: true } };
    let mut p1 = paddle_at(0);
    let mut p2 = paddle_at(0);
    handle_player_input(&options, 100, &input, &mut p1, &mut p2);
    assert_eq!(p1.pos.y, 0);
    assert_eq!(p2.pos.y, -20 * U);
}

#[test]
fn paddle_stops_at_top_boundary() {
    // Arena half height 200, paddle half height 25: centers stop at 175.
    let options = PongOptions::default();
    let input = InputState { player1: PaddleInput { up: true, down: false }, player2: idle() };
    let mut p1 = paddle_at(170 * U);
    let mut p2 = paddle_at(0);
    handle_player_input(&options, 100, &input, &mut p1, &mut p2);
    assert_eq!(p1.pos.y, 170 * U);
    let mut p3 = paddle_at(155 * U);
    handle_player_input(&options, 100, &input, &mut p3, &mut p2);
    assert_eq!(p3.pos.y, 175 * U);
}

#[test]
fn paddle_never_leaves_arena_on_oversized_tick() {
    let options = PongOptions::default();
    let held = PaddleInput { up: true, down: true };
    let input = InputState { player1: held, player2: held };
    let mut p1 = paddle_at(100 * U);
    let mut p2 = paddle_at(-175 * U);
    handle_player_input(&options, 100_000_000, &input, &mut p1, &mut p2);
    assert!(-175 * U <= p1.pos.y && p1.pos.y <= 175 * U);
    assert!(-175 * U <= p2.pos.y && p2.pos.y <= 175 * U);
}

#[test]
fn paddle_both_keys_cancel_at_center() {
    let options = PongOptions::default();
    let held = PaddleInput { up: true, down: true };
    let input = InputState { player1: held, player2: idle() };
    let mut p1 = paddle_at(0);
    let mut p2 = paddle_at(0);
    handle_player_input(&options, 100, &input, &mut p1, &mut p2);
    assert_eq!(p1.pos.y, 0);
}

#[test]
fn paddle_both_keys_near_top_still_move_down() {
    // The up move is refused at the boundary, the down move is then
    // checked against the unmoved position and proceeds.
    let options = PongOptions::default();
    let held = PaddleInput { up: true, down: true };
    let input = InputState { player1: held, player2: idle() };
    let mut p1 = paddle_at(170 * U);
    let mut p2 = paddle_at(0);
    handle_player_input(&options, 100, &input, &mut p1, &mut p2);
    assert_eq!(p1.pos.y, 150 * U);
}

#[test]
fn speedup_fires_exactly_once_on_oversized_tick() {
    // Ten periods elapse in one tick: one firing, one scaling.
    let options = PongOptions::default();
    let mut timer = BallSpeedupTimer { elapsed: 0 };
    let mut b = ball(0, 0, 30_000, 15_000);
    speedup_ball(&options, 15_000, &mut timer, &mut b);
    assert_eq!(b.vel.0.x, 33_000);
    assert_eq!(b.vel.0.y, 16_500);
    assert_eq!(timer.elapsed, 0);
}

#[test]
fn speedup_does_not_fire_inside_period() {
    let options = PongOptions::default();
    let mut timer = BallSpeedupTimer { elapsed: 0 };
    let mut b = ball(0, 0, 30_000, 15_000);
    speedup_ball(&options, 1_000, &mut timer, &mut b);
    assert_eq!(b.vel.0.x, 30_000);
    assert_eq!(b.vel.0.y, 15_000);
    assert_eq!(timer.elapsed, 1_000);
}

#[test]
fn speedup_keeps_remainder_past_boundary() {
    let options = PongOptions::default();
    let mut timer = BallSpeedupTimer { elapsed: 1_400 };
    let mut b = ball(0, 0, -30_000, -15_000);
    speedup_ball(&options, 200, &mut timer, &mut b);
    assert_eq!(timer.elapsed, 100);
    assert_eq!(b.vel.0.x, -33_000);
    assert_eq!(b.vel.0.y, -16_500);
}

#[test]
fn ball_moves_exactly_velocity_times_dt() {
    let options = PongOptions::default();
    let mut b = ball(0, 0, 30_000, 15_000);
    let pads: Vec<Vec2> = Vec::new();
    apply_ball_velocity(&options, 100, &mut b, &pads);
    assert_eq!(b.pos.x, 3 * U);
    assert_eq!(b.pos.y, 1_500_000);
    assert_eq!(b.vel.0.x, 30_000);
    assert_eq!(b.vel.0.y, 15_000);
}

#[test]
fn ball_bounce_on_side_face_negates_only_horizontal() {
    let options = PongOptions::default();
    let pads = vec![Vec2 { x: 0, y: 0 }];
    // A tick of zero elapsed time: the collision check runs on the
    // unmoved ball, so the struck face is chosen exactly.
    let mut b = ball(9 * U, 0, -40_000, 5_000);
    apply_ball_velocity(&options, 0, &mut b, &pads);
    assert_eq!(b.vel.0.x, 40_000);
    assert_eq!(b.vel.0.y, 5_000);
    assert_eq!(b.pos, Vec2 { x: 9 * U, y: 0 });

    let mut b = ball(-9 * U, 0, 40_000, 5_000);
    apply_ball_velocity(&options, 0, &mut b, &pads);
    assert_eq!(b.vel.0.x, -40_000);
    assert_eq!(b.vel.0.y, 5_000);
}

#[test]
fn ball_bounce_on_vertical_face_negates_only_vertical() {
    let options = PongOptions::default();
    let pads = vec![Vec2 { x: 0, y: 0 }];
    let mut b = ball(2 * U, 31 * U, 40_000, -5_000);
    apply_ball_velocity(&options, 0, &mut b, &pads);
    assert_eq!(b.vel.0.x, 40_000);
    assert_eq!(b.vel.0.y, 5_000);

    let mut b = ball(2 * U, -31 * U, 40_000, 5_000);
    apply_ball_velocity(&options, 0, &mut b, &pads);
    assert_eq!(b.vel.0.x, 40_000);
    assert_eq!(b.vel.0.y, -5_000);
}

#[test]
fn ball_clamps_exactly_to_top_wall() {
    // Arena half height 200, ball half height 7.5: the ball's top edge
    // ends exactly on the boundary, center at 192.5.
    let options = PongOptions::default();
    let pads: Vec<Vec2> = Vec::new();
    let mut b = ball(0, 195 * U, 0, 10_000);
    apply_ball_velocity(&options, 100, &mut b, &pads);
    assert_eq!(b.pos.y, 192_500_000);
    assert_eq!(b.vel.0.y, -10_000);
    assert_eq!(b.vel.0.x, 0);
}

#[test]
fn ball_clamps_exactly_to_bottom_wall() {
    let options = PongOptions::default();
    let pads: Vec<Vec2> = Vec::new();
    let mut b = ball(0, -195 * U, 0, -10_000);
    apply_ball_velocity(&options, 100, &mut b, &pads);
    assert_eq!(b.pos.y, -192_500_000);
    assert_eq!(b.vel.0.y, 10_000);
}

#[test]
fn e2e_ball_bounces_off_wall_within_ten_seconds() {
    // The classic configuration, the ball starting at the center with
    // velocity (30, 15) world units per second and no paddles: over ten
    // seconds the periodic speed-up makes the ball reach the top wall
    // and bounce back, ending within 185 world units of the center.
    let options = PongOptions::default();
    let mut timer = BallSpeedupTimer { elapsed: 0 };
    let mut b = ball(0, 0, 30_000, 15_000);
    let pads: Vec<Vec2> = Vec::new();
    let mut bounced = 0;
    for _ in 0..100 {
        let vy_before = b.vel.0.y;
        speedup_ball(&options, 100, &mut timer, &mut b);
        apply_ball_velocity(&options, 100, &mut b, &pads);
        if b.vel.0.y.signum() != vy_before.signum() {
            bounced += 1;
        }
    }
    assert_eq!(bounced, 1);
    assert!(-185 * U <= b.pos.y && b.pos.y <= 185 * U);
    assert_eq!(b.pos.y, 184_528_400);
    assert_eq!(b.pos.x, 402_662_600);
    assert_eq!(b.vel.0.y, -26_572);
}
