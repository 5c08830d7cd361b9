use vstd::prelude::*;
use crate::geom::Vec2;
use crate::input::{handle_player_input, lemma_paddle_motion_stays_in_bounds, moved_paddle_y, InputState};
use crate::options::PongOptions;
use crate::physics::{apply_ball_velocity, pads_view, vel_after_paddles, wall_adjusted};
use crate::scoring::{check_point_scored, scores_left, scores_right, ScoredPointEvent};
use crate::state::{vel_in_range, Player, PongState};
use crate::timer::{scale_component, scaled, speedup_ball, timer_elapsed_after, timer_fires, lemma_mul_magnitude_bound};
use crate::units::{DT_LIMIT, MOVED_LIMIT, POS_LIMIT, VEL_LIMIT};

verus! {

/// The tick pipeline accepts this state, elapsed time and fresh start
/// velocity: a tick within the time bound, a fresh velocity within the
/// velocity bound, headroom on both scores, and a speed-up that would stay
/// within the velocity bound if this tick makes the timer fire.
pub open spec fn tick_enabled(options: &PongOptions, state: &PongState, dt: i64, fresh_velocity: Vec2) -> bool {
    &&& 0 <= dt <= DT_LIMIT
    &&& vel_in_range(fresh_velocity)
    &&& state.player1.score.0 < u16::MAX
    &&& state.player2.score.0 < u16::MAX
    &&& (timer_fires(state.timer.elapsed as int, dt as int, options.ball.speedup_time as int) ==> {
        &&& -VEL_LIMIT <= scaled(state.ball.vel.0.x as int, options.ball.speedup_factor as int) <= VEL_LIMIT
        &&& -VEL_LIMIT <= scaled(state.ball.vel.0.y as int, options.ball.speedup_factor as int) <= VEL_LIMIT
    })
}

/// Decide [`tick_enabled`] at run time, so a host can test the machine
/// bounds before handing a tick to [`tick`].
pub fn tick_ready(options: &PongOptions, state: &PongState, dt: i64, fresh_velocity: Vec2) -> (b: bool)
    requires
        options.wf(),
        state.wf(options),
    ensures
        b == tick_enabled(options, state, dt, fresh_velocity),
{
    if !(0 <= dt && dt <= DT_LIMIT) {
        return false;
    }
    if !(-VEL_LIMIT <= fresh_velocity.x && fresh_velocity.x <= VEL_LIMIT
        && -VEL_LIMIT <= fresh_velocity.y && fresh_velocity.y <= VEL_LIMIT) {
        return false;
    }
    if !(state.player1.score.0 < u16::MAX && state.player2.score.0 < u16::MAX) {
        return false;
    }
    if state.timer.elapsed + dt >= options.ball.speedup_time {
        let sx = scale_component(state.ball.vel.0.x, options.ball.speedup_factor);
        let sy = scale_component(state.ball.vel.0.y, options.ball.speedup_factor);
        if !(-VEL_LIMIT <= sx && sx <= VEL_LIMIT && -VEL_LIMIT <= sy && sy <= VEL_LIMIT) {
            return false;
        }
    }
    true
}

/// One full simulation tick, in the fixed pipeline order: input-driven
/// paddle motion and the speed-up timer first (they share no state), then
/// ball physics against the just-moved paddles, then scoring on the
/// just-moved ball, whose events are returned for the host's notification
/// sink.  The contract pins every field of the resulting state: the
/// paddles move by held keys bounds-checked against the arena; the timer
/// advances and fires at most once, scaling the ball velocity; the ball
/// advances by exactly the (possibly scaled) velocity times `dt`, bounces
/// off paddles and is clamped to the walls; a crossed boundary scores the
/// opposite player, emits one event carrying the new score, and resets
/// the ball to the center with the fresh velocity and both paddles to the
/// vertical center.
pub fn tick(options: &PongOptions, state: &mut PongState, input: &InputState, dt: i64, fresh_velocity: Vec2) -> (events: Vec<ScoredPointEvent>)
    requires
        options.wf(),
        old(state).wf(options),
        tick_enabled(options, old(state), dt, fresh_velocity),
    ensures
        final(state).wf(options),
        ({
            let hgs = options.game.size.y as int / 2;
            let hps = options.player.size.y as int / 2;
            let hbs = options.ball.size.y as int / 2;
            let hgx = options.game.size.x as int / 2;
            let hbx = options.ball.size.x as int / 2;
            let period = options.ball.speedup_time as int;
            let factor = options.ball.speedup_factor as int;
            let movement = options.player.speed * dt;
            let y1 = moved_paddle_y(old(state).player1.pos.y as int, input.player1.up, input.player1.down, movement, hps, hgs);
            let y2 = moved_paddle_y(old(state).player2.pos.y as int, input.player2.up, input.player2.down, movement, hps, hgs);
            let fired = timer_fires(old(state).timer.elapsed as int, dt as int, period);
            let vx0 = if fired { scaled(old(state).ball.vel.0.x as int, factor) } else { old(state).ball.vel.0.x as int };
            let vy0 = if fired { scaled(old(state).ball.vel.0.y as int, factor) } else { old(state).ball.vel.0.y as int };
            let mx = old(state).ball.pos.x + vx0 * dt;
            let my = old(state).ball.pos.y + vy0 * dt;
            let pads = seq![(old(state).player1.pos.x as int, y1), (old(state).player2.pos.x as int, y2)];
            let v = vel_after_paddles(
                pads, options.player.size.x as int, options.player.size.y as int,
                mx, my, options.ball.size.x as int, options.ball.size.y as int, vx0, vy0);
            let w = wall_adjusted(my, v.1, hgs, hbs);
            let sl = scores_left(mx, hbx, hgx);
            let sr = scores_right(mx, hbx, hgx);
            &&& final(state).timer.elapsed == timer_elapsed_after(old(state).timer.elapsed as int, dt as int, period)
            &&& final(state).player1.pos.x == old(state).player1.pos.x
            &&& final(state).player2.pos.x == old(state).player2.pos.x
            &&& final(state).player1.pos.y == (if sl || sr { 0int } else { y1 })
            &&& final(state).player2.pos.y == (if sl || sr { 0int } else { y2 })
            &&& final(state).player1.score.0 == old(state).player1.score.0 + (if sr { 1int } else { 0int })
            &&& final(state).player2.score.0 == old(state).player2.score.0 + (if sl { 1int } else { 0int })
            &&& final(state).ball.pos.x == (if sl || sr { 0int } else { mx })
            &&& final(state).ball.pos.y == (if sl || sr { 0int } else { w.0 })
            &&& final(state).ball.vel.0.x == (if sl || sr { fresh_velocity.x as int } else { v.0 })
            &&& final(state).ball.vel.0.y == (if sl || sr { fresh_velocity.y as int } else { w.1 })
            &&& events@.len() == (if sl { 1int } else { 0int }) + (if sr { 1int } else { 0int })
            &&& sl ==> events@[0] == ScoredPointEvent(Player::Player2, final(state).player2.score)
            &&& sr ==> events@[events@.len() - 1] == ScoredPointEvent(Player::Player1, final(state).player1.score)
        }),
{
    let ghost hgs = options.game.size.y as int / 2;
    let ghost hps = options.player.size.y as int / 2;
    let ghost movement = options.player.speed * dt;
    let ghost y1 = moved_paddle_y(old(state).player1.pos.y as int, input.player1.up, input.player1.down, movement, hps, hgs);
    let ghost y2 = moved_paddle_y(old(state).player2.pos.y as int, input.player2.up, input.player2.down, movement, hps, hgs);
    proof {
        assert(options.player.speed * dt >= 0) by (nonlinear_arith)
            requires
                options.player.speed >= 0,
                dt >= 0,
        ;
        lemma_paddle_motion_stays_in_bounds(
            old(state).player1.pos.y as int, input.player1.up, input.player1.down, movement, hps, hgs);
        lemma_paddle_motion_stays_in_bounds(
            old(state).player2.pos.y as int, input.player2.up, input.player2.down, movement, hps, hgs);
    }
    handle_player_input(options, dt, input, &mut state.player1, &mut state.player2);
    speedup_ball(options, dt, &mut state.timer, &mut state.ball);
    proof {
        lemma_mul_magnitude_bound(state.ball.vel.0.x as int, dt as int, VEL_LIMIT as int, DT_LIMIT as int);
        lemma_mul_magnitude_bound(state.ball.vel.0.y as int, dt as int, VEL_LIMIT as int, DT_LIMIT as int);
    }
    let mut pads: Vec<Vec2> = Vec::new();
    pads.push(state.player1.pos);
    pads.push(state.player2.pos);
    proof {
        assert(pads_view(pads@) =~= seq![
            (old(state).player1.pos.x as int, y1),
            (old(state).player2.pos.x as int, y2),
        ]);
    }
    apply_ball_velocity(options, dt, &mut state.ball, &pads);
    let events = check_point_scored(options, &mut state.ball, &mut state.player1, &mut state.player2, fresh_velocity);
    events
}

} // verus!
