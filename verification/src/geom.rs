use vstd::prelude::*;
use crate::units::{GEOM_LIMIT, POS_LIMIT};

verus! {

/// A plane vector in fixed-point coordinates: position subunits, or
/// velocity subunits per millisecond, on each axis.
#[derive(Copy, Clone, PartialEq, Eq, Structural, Debug)]
pub struct Vec2 {
    pub x: i64,
    pub y: i64,
}

/// The face of box `b` that box `a` struck in [`overlap`].
#[derive(Copy, Clone, PartialEq, Eq, Structural, Debug)]
pub enum Collision {
    Left,
    Right,
    Top,
    Bottom,
}

/// Both coordinates within the range the overlap test accepts.
pub open spec fn in_geom_range(v: Vec2) -> bool {
    -GEOM_LIMIT <= v.x <= GEOM_LIMIT && -GEOM_LIMIT <= v.y <= GEOM_LIMIT
}

/// A box size acceptable to the geometry: nonnegative and bounded.
pub open spec fn size_in_range(s: Vec2) -> bool {
    0 <= s.x <= POS_LIMIT && 0 <= s.y <= POS_LIMIT
}

/// Half of a nonnegative extent, rounding down.
pub fn half(v: i64) -> (r: i64)
    requires
        0 <= v,
    ensures
        r == v as int / 2,
        0 <= r <= v,
{
    v / 2
}

/// The two boxes strictly overlap on both axes, each box reaching half an
/// extent out from its center.
pub open spec fn boxes_overlap(ax: int, ay: int, aw: int, ah: int, bx: int, by: int, bw: int, bh: int) -> bool {
    &&& ax - aw / 2 < bx + bw / 2
    &&& ax + aw / 2 > bx - bw / 2
    &&& ay - ah / 2 < by + bh / 2
    &&& ay + ah / 2 > by - bh / 2
}

/// Horizontal face classification: `a` straddles `b`'s left or right edge
/// from outside, paired with the (nonpositive) penetration depth.
pub open spec fn x_face(ax: int, aw: int, bx: int, bw: int) -> Option<(Collision, int)> {
    let a_min = ax - aw / 2;
    let a_max = ax + aw / 2;
    let b_min = bx - bw / 2;
    let b_max = bx + bw / 2;
    if a_min < b_min && a_max > b_min && a_max < b_max {
        Some((Collision::Left, b_min - a_max))
    } else if a_min > b_min && a_min < b_max && a_max > b_max {
        Some((Collision::Right, a_min - b_max))
    } else {
        None
    }
}

/// Vertical face classification, the mirror of [`x_face`].
pub open spec fn y_face(ay: int, ah: int, by: int, bh: int) -> Option<(Collision, int)> {
    let a_min = ay - ah / 2;
    let a_max = ay + ah / 2;
    let b_min = by - bh / 2;
    let b_max = by + bh / 2;
    if a_min < b_min && a_max > b_min && a_max < b_max {
        Some((Collision::Bottom, b_min - a_max))
    } else if a_min > b_min && a_min < b_max && a_max > b_max {
        Some((Collision::Top, a_min - b_max))
    } else {
        None
    }
}

/// Which face of box `b` was struck by box `a`: axis-aligned box overlap
/// with a minimum-penetration tie-break when both axes classify a face.
/// `None` when the boxes do not overlap, and also when they overlap but
/// neither axis shows `a` straddling an edge of `b` from outside (one box
/// swallowing the other).
pub open spec fn overlap_side(ax: int, ay: int, aw: int, ah: int, bx: int, by: int, bw: int, bh: int) -> Option<Collision> {
    if boxes_overlap(ax, ay, aw, ah, bx, by, bw, bh) {
        match (x_face(ax, aw, bx, bw), y_face(ay, ah, by, bh)) {
            (Some(xc), Some(yc)) => if vstd::math::abs(yc.1) < vstd::math::abs(xc.1) {
                Some(yc.0)
            } else {
                Some(xc.0)
            },
            (Some(xc), None) => Some(xc.0),
            (None, Some(yc)) => Some(yc.0),
            (None, None) => None,
        }
    } else {
        None
    }
}

/// Axis-aligned overlap test between a box centered at `a_pos` of extents
/// `a_size` and a box centered at `b_pos` of extents `b_size`, classifying
/// which face of `b` was struck by `a`.
pub fn overlap(a_pos: Vec2, a_size: Vec2, b_pos: Vec2, b_size: Vec2) -> (r: Option<Collision>)
    requires
        in_geom_range(a_pos),
        in_geom_range(b_pos),
        size_in_range(a_size),
        size_in_range(b_size),
    ensures
        r == overlap_side(
            a_pos.x as int, a_pos.y as int, a_size.x as int, a_size.y as int,
            b_pos.x as int, b_pos.y as int, b_size.x as int, b_size.y as int,
        ),
{
    let a_min_x = a_pos.x - half(a_size.x);
    let a_max_x = a_pos.x + half(a_size.x);
    let a_min_y = a_pos.y - half(a_size.y);
    let a_max_y = a_pos.y + half(a_size.y);
    let b_min_x = b_pos.x - half(b_size.x);
    let b_max_x = b_pos.x + half(b_size.x);
    let b_min_y = b_pos.y - half(b_size.y);
    let b_max_y = b_pos.y + half(b_size.y);

    if a_min_x < b_max_x && a_max_x > b_min_x && a_min_y < b_max_y && a_max_y > b_min_y {
        let x_hit: Option<(Collision, i64)> = if a_min_x < b_min_x && a_max_x > b_min_x && a_max_x < b_max_x {
            Some((Collision::Left, b_min_x - a_max_x))
        } else if a_min_x > b_min_x && a_min_x < b_max_x && a_max_x > b_max_x {
            Some((Collision::Right, a_min_x - b_max_x))
        } else {
            None
        };
        let y_hit: Option<(Collision, i64)> = if a_min_y < b_min_y && a_max_y > b_min_y && a_max_y < b_max_y {
            Some((Collision::Bottom, b_min_y - a_max_y))
        } else if a_min_y > b_min_y && a_min_y < b_max_y && a_max_y > b_max_y {
            Some((Collision::Top, a_min_y - b_max_y))
        } else {
            None
        };
        match (x_hit, y_hit) {
            (Some((xc, xd)), Some((yc, yd))) => {
                let xa = if xd < 0 { -xd } else { xd };
                let ya = if yd < 0 { -yd } else { yd };
                if ya < xa {
                    Some(yc)
                } else {
                    Some(xc)
                }
            },
            (Some((xc, _)), None) => Some(xc),
            (None, Some((yc, _))) => Some(yc),
            (None, None) => None,
        }
    } else {
        None
    }
}

} // verus!
