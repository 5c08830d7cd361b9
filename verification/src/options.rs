use vstd::prelude::*;
use crate::geom::Vec2;
use crate::state::Player;
use crate::units::{DT_LIMIT, FACTOR_LIMIT, POS_LIMIT, UNIT, VEL_LIMIT, VEL_UNIT};

verus! {

/// An RGBA color, presentation-only: the core never reads it, the host
/// draws with it.
#[derive(Copy, Clone, PartialEq, Eq, Structural, Debug)]
pub struct Color {
    pub r: u8,
    pub g: u8,
    pub b: u8,
    pub a: u8,
}

/// A key of the host's abstract key-code set.  The core only stores and
/// compares codes; the host decides what code each physical key carries.
#[derive(Copy, Clone, PartialEq, Eq, Structural, Debug)]
pub struct KeyCode(pub u32);

/// The arena: a fixed rectangle centered at the origin.  All gameplay
/// positions are relative to its center.
#[derive(Copy, Clone)]
pub struct GameOptions {
    /// Width and height of the arena, in position subunits.
    pub size: Vec2,
    /// The background color for the entire game.
    pub background: Color,
}

impl Default for GameOptions {
    /// An arena of 600 by 400 world units on a black background.
    fn default() -> (r: Self)
        ensures
            r.size.x == 600 * UNIT,
            r.size.y == 400 * UNIT,
            r.background == (Color { r: 0, g: 0, b: 0, a: 255 }),
    {
        Self {
            size: Vec2 { x: 600 * UNIT, y: 400 * UNIT },
            background: Color { r: 0, g: 0, b: 0, a: 255 },
        }
    }
}

/// Configuration shared by the two paddles.
#[derive(Copy, Clone)]
pub struct PlayerOptions {
    /// The colors for the players (`colors.0` is for player 1; `colors.1`
    /// is for player 2).
    pub colors: (Color, Color),
    /// Width and height of a paddle, in position subunits.
    pub size: Vec2,
    /// Up and down keys controlling player one (the left paddle).
    pub player1_keys: (KeyCode, KeyCode),
    /// Up and down keys controlling player two (the right paddle).
    pub player2_keys: (KeyCode, KeyCode),
    /// Paddle speed, in subunits per millisecond.
    pub speed: i64,
}

impl Default for PlayerOptions {
    /// White paddles of 5 by 50 world units moving 200 world units per
    /// second, with distinct default key codes for the four bindings.
    fn default() -> (r: Self)
        ensures
            r.size.x == 5 * UNIT,
            r.size.y == 50 * UNIT,
            r.speed == 200 * VEL_UNIT,
            r.player1_keys.0 != r.player1_keys.1,
            r.player2_keys.0 != r.player2_keys.1,
            r.player1_keys.0 != r.player2_keys.0,
            r.player1_keys.1 != r.player2_keys.1,
    {
        Self {
            colors: (Color { r: 255, g: 255, b: 255, a: 255 }, Color { r: 255, g: 255, b: 255, a: 255 }),
            size: Vec2 { x: 5 * UNIT, y: 50 * UNIT },
            player1_keys: (KeyCode(0), KeyCode(1)),
            player2_keys: (KeyCode(2), KeyCode(3)),
            speed: 200 * VEL_UNIT,
        }
    }
}

/// Configuration of the single ball.
#[derive(Copy, Clone)]
pub struct BallOptions {
    pub color: Color,
    /// Width and height of the ball, in position subunits.
    pub size: Vec2,
    /// The factor, in permille, by which the ball velocity is multiplied
    /// when the speed-up timer fires.
    pub speedup_factor: i64,
    /// The period, in milliseconds, of the speed-up timer.
    pub speedup_time: i64,
}

impl Default for BallOptions {
    /// A white ball of 15 by 15 world units that speeds up by a tenth
    /// every one and a half seconds.
    fn default() -> (r: Self)
        ensures
            r.size.x == 15 * UNIT,
            r.size.y == 15 * UNIT,
            r.speedup_factor == 1100,
            r.speedup_time == 1500,
    {
        Self {
            color: Color { r: 255, g: 255, b: 255, a: 255 },
            size: Vec2 { x: 15 * UNIT, y: 15 * UNIT },
            speedup_factor: 1100,
            speedup_time: 1500,
        }
    }
}

/// How the optional score display is drawn.  Presentation-only: the core
/// keeps it so the host can read it back, and never looks inside.
#[derive(Copy, Clone)]
pub struct ScoreDisplayOptions {
    pub font_path: &'static str,
    /// Font size in position subunits.
    pub font_size: i64,
    pub font_color: Color,
}

impl Default for ScoreDisplayOptions {
    fn default() -> (r: Self)
        ensures
            r.font_size == 20 * UNIT,
    {
        Self {
            font_path: "fonts/FiraMono-Medium.ttf",
            font_size: 20 * UNIT,
            font_color: Color { r: 255, g: 255, b: 255, a: 255 },
        }
    }
}

/// The whole configuration surface, supplied once at match start and
/// immutable during a match.
#[derive(Copy, Clone)]
pub struct PongOptions {
    pub game: GameOptions,
    pub player: PlayerOptions,
    pub ball: BallOptions,
    /// Whether the default score display should be used, and how the score
    /// gets displayed.
    pub score_display_options: Option<ScoreDisplayOptions>,
}

impl Default for PongOptions {
    fn default() -> (r: Self)
        ensures
            r.game.size.x == 600 * UNIT,
            r.game.size.y == 400 * UNIT,
            r.player.size.x == 5 * UNIT,
            r.player.size.y == 50 * UNIT,
            r.player.speed == 200 * VEL_UNIT,
            r.ball.size.x == 15 * UNIT,
            r.ball.size.y == 15 * UNIT,
            r.ball.speedup_factor == 1100,
            r.ball.speedup_time == 1500,
            r.score_display_options is Some,
            r.wf(),
    {
        Self {
            game: GameOptions::default(),
            player: PlayerOptions::default(),
            ball: BallOptions::default(),
            score_display_options: Some(ScoreDisplayOptions::default()),
        }
    }
}

impl PongOptions {
    /// A configuration the core can run on: positive, bounded sizes, the
    /// paddle and the ball fitting the arena vertically, a bounded paddle
    /// speed, a positive bounded speed-up period and a bounded nonnegative
    /// speed-up factor.
    pub open spec fn wf(&self) -> bool {
        &&& 0 < self.game.size.x <= POS_LIMIT
        &&& 0 < self.game.size.y <= POS_LIMIT
        &&& 0 < self.player.size.x <= POS_LIMIT
        &&& 0 < self.player.size.y <= self.game.size.y
        &&& 0 <= self.player.speed <= VEL_LIMIT
        &&& 0 < self.ball.size.x <= POS_LIMIT
        &&& 0 < self.ball.size.y <= self.game.size.y
        &&& 0 < self.ball.speedup_time <= DT_LIMIT
        &&& 0 <= self.ball.speedup_factor <= FACTOR_LIMIT
    }

    /// The color configured for `player`.
    pub fn color_for(&self, player: &Player) -> (c: Color)
        ensures
            c == (match player {
                Player::Player1 => self.player.colors.0,
                Player::Player2 => self.player.colors.1,
            }),
    {
        match player {
            Player::Player1 => self.player.colors.0,
            Player::Player2 => self.player.colors.1,
        }
    }

    /// The key that moves `player`'s paddle up.
    pub fn up_for(&self, player: &Player) -> (k: KeyCode)
        ensures
            k == (match player {
                Player::Player1 => self.player.player1_keys.0,
                Player::Player2 => self.player.player2_keys.0,
            }),
    {
        match player {
            Player::Player1 => self.player.player1_keys.0,
            Player::Player2 => self.player.player2_keys.0,
        }
    }

    /// The key that moves `player`'s paddle down.
    pub fn down_for(&self, player: &Player) -> (k: KeyCode)
        ensures
            k == (match player {
                Player::Player1 => self.player.player1_keys.1,
                Player::Player2 => self.player.player2_keys.1,
            }),
    {
        match player {
            Player::Player1 => self.player.player1_keys.1,
            Player::Player2 => self.player.player2_keys.1,
        }
    }
}

} // verus!
