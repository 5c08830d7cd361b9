use vstd::prelude::*;
use crate::options::PongOptions;
use crate::state::Paddle;
use crate::timer::lemma_mul_magnitude_bound;
use crate::units::{DT_LIMIT, POS_LIMIT, VEL_LIMIT};

verus! {

/// The pressed state of one paddle's two bound keys this tick.  The host
/// polls its key predicate with [`crate::options::PongOptions::up_for`]
/// and [`crate::options::PongOptions::down_for`] and hands the two answers
/// over.
#[derive(Copy, Clone, PartialEq, Eq, Structural, Debug)]
pub struct PaddleInput {
    pub up: bool,
    pub down: bool,
}

/// The pressed state of all four bound keys this tick.
#[derive(Copy, Clone, PartialEq, Eq, Structural, Debug)]
pub struct InputState {
    pub player1: PaddleInput,
    pub player2: PaddleInput,
}

/// A paddle's vertical center after one tick of input-driven motion.  The
/// up key moves it up by `movement` when the moved leading edge stays
/// inside the arena; the down key then moves it down under the same test
/// against the position the up key may already have changed, so holding
/// both keys away from the boundaries nets to zero.
pub open spec fn moved_paddle_y(y: int, up: bool, down: bool, movement: int, hps: int, hgs: int) -> int {
    let y_up = if up && y + hps + movement <= hgs {
        y + movement
    } else {
        y
    };
    if down && y_up - hps - movement >= -hgs {
        y_up - movement
    } else {
        y_up
    }
}

/// Input-driven motion keeps a paddle inside the arena: from any vertical
/// center within `[-hgs + hps, hgs - hps]`, any key combination and any
/// nonnegative movement land within the same range.
pub proof fn lemma_paddle_motion_stays_in_bounds(y: int, up: bool, down: bool, movement: int, hps: int, hgs: int)
    requires
        0 <= movement,
        0 <= hps <= hgs,
        -hgs + hps <= y <= hgs - hps,
    ensures
        -hgs + hps <= moved_paddle_y(y, up, down, movement, hps, hgs) <= hgs - hps,
{
}

/// Move one paddle by the keys held this tick: `movement` subunits up when
/// the up key is held and the moved paddle still fits, then the same
/// amount down under the same test.
fn move_paddle(input: PaddleInput, movement: i64, hps: i64, hgs: i64, paddle: &mut Paddle)
    requires
        0 <= movement <= VEL_LIMIT * DT_LIMIT,
        0 <= hps <= POS_LIMIT,
        0 <= hgs <= POS_LIMIT,
        -POS_LIMIT <= old(paddle).pos.y <= POS_LIMIT,
    ensures
        final(paddle).pos.y == moved_paddle_y(
            old(paddle).pos.y as int, input.up, input.down, movement as int, hps as int, hgs as int),
        final(paddle).pos.x == old(paddle).pos.x,
        final(paddle).score == old(paddle).score,
{
    if input.up && paddle.pos.y + hps + movement <= hgs {
        paddle.pos.y = paddle.pos.y + movement;
    }
    if input.down && paddle.pos.y - hps - movement >= -hgs {
        paddle.pos.y = paddle.pos.y - movement;
    }
}

/// Apply the held keys to both paddles for a tick of `dt` milliseconds:
/// each paddle moves `speed * dt` subunits per held key, bounds-checked
/// against the arena before each of the two motions.
pub fn handle_player_input(options: &PongOptions, dt: i64, input: &InputState, player1: &mut Paddle, player2: &mut Paddle)
    requires
        options.wf(),
        0 <= dt <= DT_LIMIT,
        -POS_LIMIT <= old(player1).pos.y <= POS_LIMIT,
        -POS_LIMIT <= old(player2).pos.y <= POS_LIMIT,
    ensures
        final(player1).pos.y == moved_paddle_y(
            old(player1).pos.y as int, input.player1.up, input.player1.down,
            options.player.speed * dt,
            options.player.size.y as int / 2, options.game.size.y as int / 2),
        final(player2).pos.y == moved_paddle_y(
            old(player2).pos.y as int, input.player2.up, input.player2.down,
            options.player.speed * dt,
            options.player.size.y as int / 2, options.game.size.y as int / 2),
        final(player1).pos.x == old(player1).pos.x,
        final(player2).pos.x == old(player2).pos.x,
        final(player1).score == old(player1).score,
        final(player2).score == old(player2).score,
{
    proof {
        lemma_mul_magnitude_bound(
            options.player.speed as int, dt as int, VEL_LIMIT as int, DT_LIMIT as int);
    }
    let movement = options.player.speed * dt;
    let hps = crate::geom::half(options.player.size.y);
    let hgs = crate::geom::half(options.game.size.y);
    move_paddle(input.player1, movement, hps, hgs, player1);
    move_paddle(input.player2, movement, hps, hgs, player2);
}

} // verus!
