use vstd::prelude::*;
use crate::options::PongOptions;
use crate::state::Ball;
use crate::units::{DT_LIMIT, FACTOR_LIMIT, PERMILLE, VEL_LIMIT};

verus! {

/// The repeating countdown behind the periodic ball speed-up.  `elapsed`
/// is the time, in milliseconds, since the period last began.
#[derive(Copy, Clone, PartialEq, Eq, Structural, Debug)]
pub struct BallSpeedupTimer {
    pub elapsed: i64,
}

/// Whether advancing the timer by `dt` crosses the period boundary.  Any
/// number of boundaries crossed in one oversized `dt` coalesce into this
/// one firing.
pub open spec fn timer_fires(elapsed: int, dt: int, period: int) -> bool {
    elapsed + dt >= period
}

/// The timer's elapsed time after a tick of `dt`: advanced, and wrapped
/// into the period when the tick made it fire.
pub open spec fn timer_elapsed_after(elapsed: int, dt: int, period: int) -> int {
    if timer_fires(elapsed, dt, period) {
        (elapsed + dt) % period
    } else {
        elapsed + dt
    }
}

/// A velocity component multiplied by a factor in permille, the result
/// rounded toward zero.
pub open spec fn scaled(v: int, factor: int) -> int {
    if v >= 0 {
        v * factor / (PERMILLE as int)
    } else {
        -((-v) * factor / (PERMILLE as int))
    }
}

/// `|a * b| <= aa * bb` whenever `|a| <= aa` and `0 <= b <= bb`.
#[verifier::nonlinear]
pub proof fn lemma_mul_magnitude_bound(a: int, b: int, aa: int, bb: int)
    requires
        -aa <= a <= aa,
        0 <= b <= bb,
    ensures
        -(aa * bb) <= a * b <= aa * bb,
{
}

/// A nonnegative velocity magnitude scaled by a factor in permille.
fn scale_mag(m: i64, factor: i64) -> (r: i64)
    requires
        0 <= m <= VEL_LIMIT,
        0 <= factor <= FACTOR_LIMIT,
    ensures
        r == m as int * factor as int / (PERMILLE as int),
        0 <= r,
{
    proof {
        lemma_mul_magnitude_bound(m as int, factor as int, VEL_LIMIT as int, FACTOR_LIMIT as int);
    }
    let p = m * factor;
    p / PERMILLE
}

/// One velocity component multiplied by the speed-up factor, rounding
/// toward zero.
pub fn scale_component(v: i64, factor: i64) -> (r: i64)
    requires
        -VEL_LIMIT <= v <= VEL_LIMIT,
        0 <= factor <= FACTOR_LIMIT,
    ensures
        r == scaled(v as int, factor as int),
{
    if v >= 0 {
        scale_mag(v, factor)
    } else {
        -scale_mag(-v, factor)
    }
}

/// The timer's elapsed time stays inside the period across any tick: it
/// fires exactly when the advance reaches the boundary, and a firing tick
/// leaves it strictly inside the next period, so a following tick of zero
/// elapsed time cannot fire again.
pub proof fn lemma_timer_stays_in_period(elapsed: int, dt: int, period: int)
    requires
        0 <= elapsed < period,
        0 <= dt,
    ensures
        0 <= timer_elapsed_after(elapsed, dt, period) < period,
        timer_fires(elapsed, dt, period) <==> elapsed + dt >= period,
        !timer_fires(timer_elapsed_after(elapsed, dt, period), 0, period),
{
    if timer_fires(elapsed, dt, period) {
        vstd::arithmetic::div_mod::lemma_mod_bound(elapsed + dt, period);
    }
}

/// Advance the speed-up timer by `dt` milliseconds; when the advance
/// crosses the period boundary the ball's velocity is multiplied by the
/// configured factor, componentwise, exactly once, however many periods
/// elapsed.
pub fn speedup_ball(options: &PongOptions, dt: i64, timer: &mut BallSpeedupTimer, ball: &mut Ball)
    requires
        options.wf(),
        0 <= dt <= DT_LIMIT,
        0 <= old(timer).elapsed < options.ball.speedup_time,
        crate::state::vel_in_range(old(ball).vel.0),
    ensures
        final(timer).elapsed == timer_elapsed_after(
            old(timer).elapsed as int, dt as int, options.ball.speedup_time as int),
        0 <= final(timer).elapsed < options.ball.speedup_time,
        final(ball).vel.0.x == (if timer_fires(old(timer).elapsed as int, dt as int, options.ball.speedup_time as int) {
            scaled(old(ball).vel.0.x as int, options.ball.speedup_factor as int)
        } else {
            old(ball).vel.0.x as int
        }),
        final(ball).vel.0.y == (if timer_fires(old(timer).elapsed as int, dt as int, options.ball.speedup_time as int) {
            scaled(old(ball).vel.0.y as int, options.ball.speedup_factor as int)
        } else {
            old(ball).vel.0.y as int
        }),
        final(ball).pos == old(ball).pos,
{
    proof {
        lemma_timer_stays_in_period(
            old(timer).elapsed as int, dt as int, options.ball.speedup_time as int);
    }
    let total = timer.elapsed + dt;
    if total >= options.ball.speedup_time {
        timer.elapsed = total % options.ball.speedup_time;
        let vx = scale_component(ball.vel.0.x, options.ball.speedup_factor);
        let vy = scale_component(ball.vel.0.y, options.ball.speedup_factor);
        ball.vel = crate::state::Velocity(crate::geom::Vec2 { x: vx, y: vy });
    } else {
        timer.elapsed = total;
    }
}

} // verus!
