use vstd::prelude::*;
use crate::geom::{half, overlap, overlap_side, Collision, Vec2};
use crate::options::PongOptions;
use crate::state::{vel_in_range, Ball, Velocity};
use crate::timer::lemma_mul_magnitude_bound;
use crate::units::{DT_LIMIT, GEOM_LIMIT, MOVED_LIMIT, POS_LIMIT, VEL_LIMIT};

verus! {

/// A paddle center as a pair of mathematical coordinates.
pub open spec fn pad_coords(p: Vec2) -> (int, int) {
    (p.x as int, p.y as int)
}

/// A list of paddle centers as pairs of mathematical coordinates.
pub open spec fn pads_view(paddles: Seq<Vec2>) -> Seq<(int, int)> {
    paddles.map_values(|p: Vec2| pad_coords(p))
}

/// The ball velocity after resolving one collision classification: a hit
/// on the ball's left or right face negates only the horizontal component,
/// one on its top or bottom face only the vertical component, and no
/// overlap leaves the velocity alone.
pub open spec fn bounced(c: Option<Collision>, vx: int, vy: int) -> (int, int) {
    match c {
        Some(Collision::Left) | Some(Collision::Right) => (-vx, vy),
        Some(Collision::Top) | Some(Collision::Bottom) => (vx, -vy),
        None => (vx, vy),
    }
}

/// The ball velocity after testing every paddle in order against the
/// moved ball at `(bx, by)` and applying each resulting bounce.  Each
/// paddle is checked independently; two paddles reporting the same axis
/// negate that component twice.
pub open spec fn vel_after_paddles(pads: Seq<(int, int)>, pw: int, ph: int, bx: int, by: int, bw: int, bh: int, vx: int, vy: int) -> (int, int)
    decreases pads.len(),
{
    if pads.len() == 0 {
        (vx, vy)
    } else {
        let v1 = bounced(overlap_side(pads[0].0, pads[0].1, pw, ph, bx, by, bw, bh), vx, vy);
        vel_after_paddles(pads.skip(1), pw, ph, bx, by, bw, bh, v1.0, v1.1)
    }
}

/// Vertical position and velocity after the wall check: a ball whose top
/// edge reaches the top boundary is clamped so the edge sits exactly on
/// the boundary and its vertical velocity flips; symmetrically at the
/// bottom; otherwise both pass through unchanged.
pub open spec fn wall_adjusted(my: int, vy: int, hgs: int, hbs: int) -> (int, int) {
    if my + hbs >= hgs {
        (hgs - hbs, -vy)
    } else if my - hbs <= -hgs {
        (-hgs + hbs, -vy)
    } else {
        (my, vy)
    }
}

/// A tick with no collisions moves the ball by exactly `velocity * dt` and
/// leaves the velocity unchanged: when no paddle overlaps the moved ball
/// and the moved ball stays strictly inside the walls, the paddle pass
/// keeps the velocity and the wall check keeps both the position and the
/// velocity.
pub proof fn lemma_free_flight(pads: Seq<(int, int)>, pw: int, ph: int, bx: int, by: int, bw: int, bh: int, vx: int, vy: int, hgs: int, hbs: int)
    requires
        forall|j: int| 0 <= j < pads.len() ==> overlap_side(#[trigger] pads[j].0, pads[j].1, pw, ph, bx, by, bw, bh) is None,
        by + hbs < hgs,
        by - hbs > -hgs,
    ensures
        vel_after_paddles(pads, pw, ph, bx, by, bw, bh, vx, vy) == (vx, vy),
        wall_adjusted(by, vy, hgs, hbs) == (by, vy),
    decreases pads.len(),
{
    if pads.len() > 0 {
        assert forall|j: int| 0 <= j < pads.skip(1).len() implies
            overlap_side(#[trigger] pads.skip(1)[j].0, pads.skip(1)[j].1, pw, ph, bx, by, bw, bh) is None by {
            assert(pads.skip(1)[j] == pads[j + 1]);
        }
        lemma_free_flight(pads.skip(1), pw, ph, bx, by, bw, bh, vx, vy, hgs, hbs);
    }
}

/// One paddle bounce negates exactly one velocity component, chosen by the
/// struck face: left or right face, the horizontal one; top or bottom
/// face, the vertical one; no overlap, neither.
pub proof fn lemma_paddle_face_bounce(px: int, py: int, pw: int, ph: int, bx: int, by: int, bw: int, bh: int, vx: int, vy: int)
    ensures
        ({
            let c = overlap_side(px, py, pw, ph, bx, by, bw, bh);
            let v = vel_after_paddles(seq![(px, py)], pw, ph, bx, by, bw, bh, vx, vy);
            &&& (c == Some(Collision::Left) || c == Some(Collision::Right)) ==> v == (-vx, vy)
            &&& (c == Some(Collision::Top) || c == Some(Collision::Bottom)) ==> v == (vx, -vy)
            &&& c is None ==> v == (vx, vy)
        }),
{
    let s = seq![(px, py)];
    assert(s.len() == 1);
    assert(s[0] == (px, py));
    assert(s.skip(1) =~= Seq::<(int, int)>::empty());
    let c = overlap_side(px, py, pw, ph, bx, by, bw, bh);
    let v1 = bounced(c, vx, vy);
    assert(vel_after_paddles(s, pw, ph, bx, by, bw, bh, vx, vy)
        == vel_after_paddles(s.skip(1), pw, ph, bx, by, bw, bh, v1.0, v1.1));
    assert(vel_after_paddles(s.skip(1), pw, ph, bx, by, bw, bh, v1.0, v1.1) == (v1.0, v1.1));
}

/// The wall check clamps exactly: a ball touching or crossing the top
/// boundary ends with its top edge exactly on the boundary and its
/// vertical velocity flipped; symmetrically at the bottom; a ball strictly
/// inside is untouched.
pub proof fn lemma_wall_clamp(my: int, vy: int, hgs: int, hbs: int)
    ensures
        my + hbs >= hgs ==> wall_adjusted(my, vy, hgs, hbs) == (hgs - hbs, -vy),
        my + hbs < hgs && my - hbs <= -hgs ==> wall_adjusted(my, vy, hgs, hbs) == (-hgs + hbs, -vy),
        my + hbs < hgs && my - hbs > -hgs ==> wall_adjusted(my, vy, hgs, hbs) == (my, vy),
{
}

/// Integrate the ball over `dt` milliseconds and resolve its collisions:
/// the position advances by exactly `velocity * dt`; every paddle is then
/// tested against the moved ball and each hit negates the component named
/// by the struck face; finally the ball is clamped to the top and bottom
/// walls, flipping its vertical velocity on contact.  Paddle hits never
/// move the ball; walls never touch the horizontal axis.
pub fn apply_ball_velocity(options: &PongOptions, dt: i64, ball: &mut Ball, paddles: &Vec<Vec2>)
    requires
        options.wf(),
        0 <= dt <= DT_LIMIT,
        -POS_LIMIT <= old(ball).pos.x <= POS_LIMIT,
        -POS_LIMIT <= old(ball).pos.y <= POS_LIMIT,
        vel_in_range(old(ball).vel.0),
        forall|j: int| 0 <= j < paddles@.len() ==> -POS_LIMIT <= #[trigger] paddles@[j].x <= POS_LIMIT && -POS_LIMIT <= paddles@[j].y <= POS_LIMIT,
    ensures
        ({
            let mx = old(ball).pos.x + old(ball).vel.0.x * dt;
            let my = old(ball).pos.y + old(ball).vel.0.y * dt;
            let v = vel_after_paddles(
                pads_view(paddles@),
                options.player.size.x as int, options.player.size.y as int,
                mx, my,
                options.ball.size.x as int, options.ball.size.y as int,
                old(ball).vel.0.x as int, old(ball).vel.0.y as int);
            let w = wall_adjusted(my, v.1, options.game.size.y as int / 2, options.ball.size.y as int / 2);
            &&& final(ball).pos.x == mx
            &&& final(ball).pos.y == w.0
            &&& final(ball).vel.0.x == v.0
            &&& final(ball).vel.0.y == w.1
        }),
        final(ball).vel.0.x == old(ball).vel.0.x || final(ball).vel.0.x == -old(ball).vel.0.x,
        final(ball).vel.0.y == old(ball).vel.0.y || final(ball).vel.0.y == -old(ball).vel.0.y,
{
    proof {
        lemma_mul_magnitude_bound(old(ball).vel.0.x as int, dt as int, VEL_LIMIT as int, DT_LIMIT as int);
        lemma_mul_magnitude_bound(old(ball).vel.0.y as int, dt as int, VEL_LIMIT as int, DT_LIMIT as int);
    }
    let dx = ball.vel.0.x * dt;
    let dy = ball.vel.0.y * dt;
    let mx = ball.pos.x + dx;
    let my = ball.pos.y + dy;
    let moved = Vec2 { x: mx, y: my };
    let mut vx = ball.vel.0.x;
    let mut vy = ball.vel.0.y;
    let ghost pads = pads_view(paddles@);
    let ghost vx0 = old(ball).vel.0.x as int;
    let ghost vy0 = old(ball).vel.0.y as int;
    let ghost pw = options.player.size.x as int;
    let ghost ph = options.player.size.y as int;
    let ghost bw = options.ball.size.x as int;
    let ghost bh = options.ball.size.y as int;
    proof {
        assert(pads.skip(0) =~= pads);
    }
    let mut i: usize = 0;
    while i < paddles.len()
        invariant
            options.wf(),
            0 <= i <= paddles.len(),
            pads == pads_view(paddles@),
            pads.len() == paddles@.len(),
            forall|j: int| 0 <= j < paddles@.len() ==> -POS_LIMIT <= #[trigger] paddles@[j].x <= POS_LIMIT && -POS_LIMIT <= paddles@[j].y <= POS_LIMIT,
            -MOVED_LIMIT <= moved.x <= MOVED_LIMIT,
            -MOVED_LIMIT <= moved.y <= MOVED_LIMIT,
            pw == options.player.size.x as int,
            ph == options.player.size.y as int,
            bw == options.ball.size.x as int,
            bh == options.ball.size.y as int,
            vx == vx0 || vx == -vx0,
            vy == vy0 || vy == -vy0,
            -VEL_LIMIT <= vx0 <= VEL_LIMIT,
            -VEL_LIMIT <= vy0 <= VEL_LIMIT,
            vel_after_paddles(pads.skip(i as int), pw, ph, moved.x as int, moved.y as int, bw, bh, vx as int, vy as int)
                == vel_after_paddles(pads, pw, ph, moved.x as int, moved.y as int, bw, bh, vx0, vy0),
        decreases paddles.len() - i,
    {
        let c = overlap(paddles[i], options.player.size, moved, options.ball.size);
        proof {
            assert(pads.skip(i as int)[0] == pads[i as int]);
            assert(pads.skip(i as int).skip(1) =~= pads.skip(i as int + 1));
            assert(pads[i as int] == pad_coords(paddles@[i as int]));
        }
        match c {
            Some(Collision::Left) | Some(Collision::Right) => {
                vx = -vx;
            },
            Some(Collision::Top) | Some(Collision::Bottom) => {
                vy = -vy;
            },
            None => {},
        }
        i = i + 1;
    }
    proof {
        assert(pads.skip(paddles@.len() as int) =~= Seq::<(int, int)>::empty());
    }
    let hgs = half(options.game.size.y);
    let hbs = half(options.ball.size.y);
    let mut ny = my;
    if my + hbs >= hgs {
        vy = -vy;
        ny = hgs - hbs;
    } else if my - hbs <= -hgs {
        vy = -vy;
        ny = -hgs + hbs;
    }
    ball.pos = Vec2 { x: mx, y: ny };
    ball.vel = Velocity(Vec2 { x: vx, y: vy });
}

} // verus!
