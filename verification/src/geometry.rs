//! Axis-aligned boxes: the overlap test and the classification of the side
//! on which one box meets another.

use vstd::prelude::*;

verus! {

/// A pair of coordinates: a position, a size or a velocity.
#[derive(Clone, Copy, Debug, PartialEq, Eq, Structural)]
pub struct Vec2 {
    pub x: i64,
    pub y: i64,
}

/// The mathematical value of a [`Vec2`].
pub struct Vec2Model {
    pub x: int,
    pub y: int,
}

impl View for Vec2 {
    type V = Vec2Model;

    open spec fn view(&self) -> Vec2Model {
        Vec2Model { x: self.x as int, y: self.y as int }
    }
}

/// The face of the second box that the first box has run into, or `Inside`
/// when the contact has no such face.
#[derive(Clone, Copy, Debug, PartialEq, Eq, Structural)]
pub enum Side {
    Left,
    Right,
    Top,
    Bottom,
    Inside,
}

/// The open intervals `(a_min, a_max)` and `(b_min, b_max)` share a point.
pub open spec fn intervals_overlap(a_min: int, a_max: int, b_min: int, b_max: int) -> bool {
    a_min < b_max && a_max > b_min
}

/// Interval `a` reaches over the low end of `b` and over that end only.
pub open spec fn straddles_low(a_min: int, a_max: int, b_min: int, b_max: int) -> bool {
    a_min < b_min && b_min < a_max && a_max < b_max
}

/// Interval `a` reaches over the high end of `b` and over that end only.
pub open spec fn straddles_high(a_min: int, a_max: int, b_min: int, b_max: int) -> bool {
    b_min < a_min && a_min < b_max && b_max < a_max
}

/// How far interval `a` has entered `b` over the one end that it straddles;
/// `None` when it straddles neither end alone.
pub open spec fn penetration(a_min: int, a_max: int, b_min: int, b_max: int) -> Option<int> {
    if straddles_low(a_min, a_max, b_min, b_max) {
        Some(a_max - b_min)
    } else if straddles_high(a_min, a_max, b_min, b_max) {
        Some(b_max - a_min)
    } else {
        None
    }
}

/// The boxes share interior points: their projections overlap on both axes.
pub open spec fn boxes_overlap(
    a_center: Vec2Model,
    a_half: Vec2Model,
    b_center: Vec2Model,
    b_half: Vec2Model,
) -> bool {
    &&& intervals_overlap(
        a_center.x - a_half.x,
        a_center.x + a_half.x,
        b_center.x - b_half.x,
        b_center.x + b_half.x,
    )
    &&& intervals_overlap(
        a_center.y - a_half.y,
        a_center.y + a_half.y,
        b_center.y - b_half.y,
        b_center.y + b_half.y,
    )
}

/// The centre of box `a` lies strictly inside box `b` on both axes.
pub open spec fn center_inside(a_center: Vec2Model, b_center: Vec2Model, b_half: Vec2Model) -> bool {
    &&& b_center.x - b_half.x < a_center.x < b_center.x + b_half.x
    &&& b_center.y - b_half.y < a_center.y < b_center.y + b_half.y
}

/// The side of box `b` that box `a` touches, for overlapping boxes.
///
/// A box whose centre lies strictly inside `b` on both axes is `Inside`.
/// Otherwise, on each axis box `a` may straddle one edge of `b`. Where it
/// does so on one axis only, that edge is the side. Where it does so on
/// both, the axis with the strictly smaller penetration decides, the
/// horizontal one on a tie. Where it does so on neither, the side is
/// `Inside` as well.
pub open spec fn contact_side(
    a_center: Vec2Model,
    a_half: Vec2Model,
    b_center: Vec2Model,
    b_half: Vec2Model,
) -> Side {
    if center_inside(a_center, b_center, b_half) {
        Side::Inside
    } else {
        edge_side(a_center, a_half, b_center, b_half)
    }
}

/// The side that the edges decide: the edge of `b` that `a` straddles, the
/// one of smaller penetration where there are two, and `Inside` where there
/// is none.
pub open spec fn edge_side(
    a_center: Vec2Model,
    a_half: Vec2Model,
    b_center: Vec2Model,
    b_half: Vec2Model,
) -> Side {
    let ax0 = a_center.x - a_half.x;
    let ax1 = a_center.x + a_half.x;
    let bx0 = b_center.x - b_half.x;
    let bx1 = b_center.x + b_half.x;
    let ay0 = a_center.y - a_half.y;
    let ay1 = a_center.y + a_half.y;
    let by0 = b_center.y - b_half.y;
    let by1 = b_center.y + b_half.y;
    let x_side = if straddles_low(ax0, ax1, bx0, bx1) {
        Side::Left
    } else {
        Side::Right
    };
    let y_side = if straddles_low(ay0, ay1, by0, by1) {
        Side::Bottom
    } else {
        Side::Top
    };
    match (penetration(ax0, ax1, bx0, bx1), penetration(ay0, ay1, by0, by1)) {
        (Some(x_depth), Some(y_depth)) => if y_depth < x_depth {
            y_side
        } else {
            x_side
        },
        (Some(_), None) => x_side,
        (None, Some(_)) => y_side,
        (None, None) => Side::Inside,
    }
}

/// The result of the overlap test: `None` for boxes that do not overlap,
/// otherwise the side of contact.
pub open spec fn overlap_spec(
    a_center: Vec2Model,
    a_half: Vec2Model,
    b_center: Vec2Model,
    b_half: Vec2Model,
) -> Option<Side> {
    if boxes_overlap(a_center, a_half, b_center, b_half) {
        Some(contact_side(a_center, a_half, b_center, b_half))
    } else {
        None
    }
}

/// Tests box `a` against box `b`, each given by its centre and its half
/// extents, and classifies the side of `b` that `a` has run into.
pub fn overlap(a_center: Vec2, a_half: Vec2, b_center: Vec2, b_half: Vec2) -> (side: Option<Side>)
    ensures
        side == overlap_spec(a_center@, a_half@, b_center@, b_half@),
{
    let ax0: i128 = a_center.x as i128 - a_half.x as i128;
    let ax1: i128 = a_center.x as i128 + a_half.x as i128;
    let bx0: i128 = b_center.x as i128 - b_half.x as i128;
    let bx1: i128 = b_center.x as i128 + b_half.x as i128;
    let ay0: i128 = a_center.y as i128 - a_half.y as i128;
    let ay1: i128 = a_center.y as i128 + a_half.y as i128;
    let by0: i128 = b_center.y as i128 - b_half.y as i128;
    let by1: i128 = b_center.y as i128 + b_half.y as i128;
    if !(ax0 < bx1 && ax1 > bx0 && ay0 < by1 && ay1 > by0) {
        return None;
    }
    let ax: i128 = a_center.x as i128;
    let ay: i128 = a_center.y as i128;
    if bx0 < ax && ax < bx1 && by0 < ay && ay < by1 {
        return Some(Side::Inside);
    }
    let x_low = ax0 < bx0 && bx0 < ax1 && ax1 < bx1;
    let x_high = bx0 < ax0 && ax0 < bx1 && bx1 < ax1;
    let y_low = ay0 < by0 && by0 < ay1 && ay1 < by1;
    let y_high = by0 < ay0 && ay0 < by1 && by1 < ay1;
    let x_side = if x_low { Side::Left } else { Side::Right };
    let y_side = if y_low { Side::Bottom } else { Side::Top };
    let x_edge = x_low || x_high;
    let y_edge = y_low || y_high;
    if x_edge && y_edge {
        let x_depth: i128 = if x_low { ax1 - bx0 } else { bx1 - ax0 };
        let y_depth: i128 = if y_low { ay1 - by0 } else { by1 - ay0 };
        if y_depth < x_depth {
            Some(y_side)
        } else {
            Some(x_side)
        }
    } else if x_edge {
        Some(x_side)
    } else if y_edge {
        Some(y_side)
    } else {
        Some(Side::Inside)
    }
}

} // verus!
