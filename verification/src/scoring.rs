use vstd::prelude::*;
use crate::geom::{half, Vec2};
use crate::options::PongOptions;
use crate::state::{Ball, Paddle, Player, Score, Velocity};
use crate::units::MOVED_LIMIT;

verus! {

/// A point was scored: which player scored, and that player's new score.
/// Produced by [`check_point_scored`] in the tick that detects the
/// crossing and meant to be consumed by the host's notification sink in
/// the same tick.
#[derive(Copy, Clone, PartialEq, Eq, Structural, Debug)]
pub struct ScoredPointEvent(pub Player, pub Score);

/// The ball's left edge is at or beyond the left arena boundary, which
/// scores a point for the right-side player.
pub open spec fn scores_left(bx: int, hbx: int, hgx: int) -> bool {
    bx - hbx <= -hgx
}

/// The ball's right edge is at or beyond the right arena boundary, which
/// scores a point for the left-side player.
pub open spec fn scores_right(bx: int, hbx: int, hgx: int) -> bool {
    bx + hbx >= hgx
}

/// Detect a point scored by the post-physics ball position.  A crossed
/// boundary awards the opposite player one point and emits one event
/// carrying the new score; the ball returns to the arena center with the
/// supplied fresh start velocity and both paddles return to the vertical
/// center.  Both boundaries are judged against the same incoming position,
/// so a ball wider than the arena (a degenerate configuration) scores both
/// players, left-boundary event first.  With no crossing nothing changes
/// and no event is emitted.
pub fn check_point_scored(options: &PongOptions, ball: &mut Ball, player1: &mut Paddle, player2: &mut Paddle, fresh_velocity: Vec2) -> (events: Vec<ScoredPointEvent>)
    requires
        options.wf(),
        -MOVED_LIMIT <= old(ball).pos.x <= MOVED_LIMIT,
        scores_left(old(ball).pos.x as int, options.ball.size.x as int / 2, options.game.size.x as int / 2)
            ==> old(player2).score.0 < u16::MAX,
        scores_right(old(ball).pos.x as int, options.ball.size.x as int / 2, options.game.size.x as int / 2)
            ==> old(player1).score.0 < u16::MAX,
    ensures
        ({
            let hgx = options.game.size.x as int / 2;
            let hbx = options.ball.size.x as int / 2;
            let sl = scores_left(old(ball).pos.x as int, hbx, hgx);
            let sr = scores_right(old(ball).pos.x as int, hbx, hgx);
            &&& final(ball).pos == (if sl || sr { Vec2 { x: 0, y: 0 } } else { old(ball).pos })
            &&& final(ball).vel == (if sl || sr { Velocity(fresh_velocity) } else { old(ball).vel })
            &&& final(player1).pos.x == old(player1).pos.x
            &&& final(player2).pos.x == old(player2).pos.x
            &&& final(player1).pos.y == (if sl || sr { 0int } else { old(player1).pos.y as int })
            &&& final(player2).pos.y == (if sl || sr { 0int } else { old(player2).pos.y as int })
            &&& final(player1).score.0 == old(player1).score.0 + (if sr { 1int } else { 0int })
            &&& final(player2).score.0 == old(player2).score.0 + (if sl { 1int } else { 0int })
            &&& events@.len() == (if sl { 1int } else { 0int }) + (if sr { 1int } else { 0int })
            &&& sl ==> events@[0] == ScoredPointEvent(Player::Player2, final(player2).score)
            &&& sr ==> events@[events@.len() - 1] == ScoredPointEvent(Player::Player1, final(player1).score)
        }),
{
    let hgx = half(options.game.size.x);
    let hbx = half(options.ball.size.x);
    let scored_left = ball.pos.x - hbx <= -hgx;
    let scored_right = ball.pos.x + hbx >= hgx;
    let mut events: Vec<ScoredPointEvent> = Vec::new();
    if scored_left || scored_right {
        ball.pos = Vec2 { x: 0, y: 0 };
        ball.vel = Velocity(fresh_velocity);
        player1.pos.y = 0;
        player2.pos.y = 0;
        if scored_left {
            player2.score = Score(player2.score.0 + 1);
            events.push(ScoredPointEvent(Player::Player2, player2.score));
        }
        if scored_right {
            player1.score = Score(player1.score.0 + 1);
            events.push(ScoredPointEvent(Player::Player1, player1.score));
        }
    }
    events
}

} // verus!
