use vstd::prelude::*;
use crate::geom::{half, Vec2};
use crate::options::PongOptions;
use crate::timer::BallSpeedupTimer;
use crate::units::{POS_LIMIT, VEL_LIMIT};

verus! {

/// One of the two players, also naming the paddle and the arena side that
/// scores for the opponent.
#[derive(Copy, Clone, PartialEq, Eq, Structural, Debug)]
pub enum Player {
    Player1,
    Player2,
}

/// A player's current score.
#[derive(Copy, Clone, PartialEq, Eq, Structural, Debug)]
pub struct Score(pub u16);

/// A velocity vector, in position subunits per millisecond.
#[derive(Copy, Clone, PartialEq, Eq, Structural, Debug)]
pub struct Velocity(pub Vec2);

/// The ball: center position and velocity.  Its size and color live in the
/// configuration.
#[derive(Copy, Clone, PartialEq, Eq, Structural, Debug)]
pub struct Ball {
    pub pos: Vec2,
    pub vel: Velocity,
}

/// One paddle: center position and the owning player's score.  Only the
/// vertical coordinate ever moves; the horizontal one is fixed at match
/// start from the arena width.
#[derive(Copy, Clone, PartialEq, Eq, Structural, Debug)]
pub struct Paddle {
    pub pos: Vec2,
    pub score: Score,
}

/// The whole tick-to-tick simulation state, owned by the core and mutated
/// only inside [`crate::tick::tick`].
#[derive(Copy, Clone, PartialEq, Eq, Structural, Debug)]
pub struct PongState {
    pub player1: Paddle,
    pub player2: Paddle,
    pub ball: Ball,
    pub timer: BallSpeedupTimer,
}

/// Both velocity components within the magnitude a tick accepts.
pub open spec fn vel_in_range(v: Vec2) -> bool {
    -VEL_LIMIT <= v.x <= VEL_LIMIT && -VEL_LIMIT <= v.y <= VEL_LIMIT
}

/// Horizontal center of `player`'s paddle at match start: half the arena
/// width minus one paddle width in from the owned side.
pub open spec fn paddle_start_x(options: &PongOptions, player: Player) -> int {
    let edge = options.game.size.x as int / 2 - options.player.size.x;
    match player {
        Player::Player1 => -edge,
        Player::Player2 => edge,
    }
}

impl Player {
    /// Where this player's paddle stands at match start: vertically
    /// centered, horizontally on the owned side.
    pub fn start_position(&self, options: &PongOptions) -> (p: Vec2)
        requires
            options.wf(),
        ensures
            p.x == paddle_start_x(options, *self),
            p.y == 0,
    {
        let x = half(options.game.size.x) - options.player.size.x;
        match self {
            Player::Player1 => Vec2 { x: -x, y: 0 },
            Player::Player2 => Vec2 { x, y: 0 },
        }
    }
}

impl Ball {
    /// Where the ball stands at match start and after every score: the
    /// arena center.
    pub fn start_position(_options: &PongOptions) -> (p: Vec2)
        ensures
            p == (Vec2 { x: 0, y: 0 }),
    {
        Vec2 { x: 0, y: 0 }
    }
}

impl PongState {
    /// A state the tick pipeline can run on: paddles within the arena
    /// vertically and within the coordinate bounds horizontally, the ball
    /// inside (or at most one arena length outside) the arena, a bounded
    /// ball velocity, and the speed-up timer strictly inside its period.
    pub open spec fn wf(&self, options: &PongOptions) -> bool {
        let hgs = options.game.size.y as int / 2;
        let hps = options.player.size.y as int / 2;
        &&& -POS_LIMIT <= self.player1.pos.x <= POS_LIMIT
        &&& -POS_LIMIT <= self.player2.pos.x <= POS_LIMIT
        &&& -hgs + hps <= self.player1.pos.y <= hgs - hps
        &&& -hgs + hps <= self.player2.pos.y <= hgs - hps
        &&& -options.game.size.x <= self.ball.pos.x <= options.game.size.x
        &&& -options.game.size.y <= self.ball.pos.y <= options.game.size.y
        &&& vel_in_range(self.ball.vel.0)
        &&& 0 <= self.timer.elapsed < options.ball.speedup_time
    }

    /// The match-start state: paddles at their start positions with zero
    /// scores, the ball at the center with the supplied start velocity,
    /// the speed-up timer at the beginning of its period.
    pub fn new(options: &PongOptions, start_velocity: Vec2) -> (s: PongState)
        requires
            options.wf(),
            vel_in_range(start_velocity),
        ensures
            s.wf(options),
            s.player1.pos.x == paddle_start_x(options, Player::Player1),
            s.player2.pos.x == paddle_start_x(options, Player::Player2),
            s.player1.pos.y == 0,
            s.player2.pos.y == 0,
            s.player1.score == Score(0),
            s.player2.score == Score(0),
            s.ball.pos == (Vec2 { x: 0, y: 0 }),
            s.ball.vel == Velocity(start_velocity),
            s.timer.elapsed == 0,
    {
        PongState {
            player1: Paddle { pos: Player::Player1.start_position(options), score: Score(0) },
            player2: Paddle { pos: Player::Player2.start_position(options), score: Score(0) },
            ball: Ball { pos: Ball::start_position(options), vel: Velocity(start_velocity) },
            timer: BallSpeedupTimer { elapsed: 0 },
        }
    }
}

} // verus!
