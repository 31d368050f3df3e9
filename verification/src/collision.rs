//! Overlap of two axis-aligned rectangles, the face that was struck, and the
//! reflection of a velocity at that face.

use vstd::prelude::*;
use crate::components::Body;
use crate::math::Vec2;

verus! {

/// The face of the second rectangle that the first one struck.
#[derive(Clone, Copy, Debug, PartialEq, Eq, Structural)]
pub enum Collision {
    Left,
    Right,
    Top,
    Bottom,
    /// The rectangles overlap, but the first straddles no edge of the second.
    Inside,
}

/// The interiors of `a` and `b` meet.
pub open spec fn overlaps(a: Body, b: Body) -> bool {
    &&& a.left2() < b.right2()
    &&& a.right2() > b.left2()
    &&& a.bottom2() < b.top2()
    &&& a.top2() > b.bottom2()
}

/// The vertical face of `b` that `a` straddles: `Left`, `Right`, or `Inside`
/// where it straddles neither or both.
pub open spec fn x_collision(a: Body, b: Body) -> Collision {
    if a.left2() < b.left2() && a.right2() > b.left2() && a.right2() < b.right2() {
        Collision::Left
    } else if a.left2() > b.left2() && a.left2() < b.right2() && a.right2() > b.right2() {
        Collision::Right
    } else {
        Collision::Inside
    }
}

/// The horizontal face of `b` that `a` straddles: `Bottom`, `Top`, or
/// `Inside` where it straddles neither or both.
pub open spec fn y_collision(a: Body, b: Body) -> Collision {
    if a.bottom2() < b.bottom2() && a.top2() > b.bottom2() && a.top2() < b.top2() {
        Collision::Bottom
    } else if a.bottom2() > b.bottom2() && a.bottom2() < b.top2() && a.top2() > b.top2() {
        Collision::Top
    } else {
        Collision::Inside
    }
}

/// Twice how far `a` reaches into `b` past the face `x_collision` names.
pub open spec fn x_depth(a: Body, b: Body) -> int {
    match x_collision(a, b) {
        Collision::Left => a.right2() - b.left2(),
        Collision::Right => b.right2() - a.left2(),
        _ => 0,
    }
}

/// Twice how far `a` reaches into `b` past the face `y_collision` names.
pub open spec fn y_depth(a: Body, b: Body) -> int {
    match y_collision(a, b) {
        Collision::Bottom => a.top2() - b.bottom2(),
        Collision::Top => b.top2() - a.bottom2(),
        _ => 0,
    }
}

/// The face of `b` that `a` struck: none where they do not overlap, else the
/// straddled face with the smaller penetration, the vertical one on a tie,
/// and `Inside` where no face is straddled.
pub open spec fn collide_spec(a: Body, b: Body) -> Option<Collision> {
    if !overlaps(a, b) {
        None
    } else if y_collision(a, b) != Collision::Inside && (x_collision(a, b) == Collision::Inside
        || y_depth(a, b) < x_depth(a, b)) {
        Some(y_collision(a, b))
    } else {
        Some(x_collision(a, b))
    }
}

/// Tests `a` against `b` and names the face of `b` that was struck.
pub fn collide(a: &Body, b: &Body) -> (hit: Option<Collision>)
    ensures
        hit == collide_spec(*a, *b),
{
    let a_min_x: i128 = 2 * (a.position.x as i128) - (a.size.x as i128);
    let a_max_x: i128 = 2 * (a.position.x as i128) + (a.size.x as i128);
    let a_min_y: i128 = 2 * (a.position.y as i128) - (a.size.y as i128);
    let a_max_y: i128 = 2 * (a.position.y as i128) + (a.size.y as i128);
    let b_min_x: i128 = 2 * (b.position.x as i128) - (b.size.x as i128);
    let b_max_x: i128 = 2 * (b.position.x as i128) + (b.size.x as i128);
    let b_min_y: i128 = 2 * (b.position.y as i128) - (b.size.y as i128);
    let b_max_y: i128 = 2 * (b.position.y as i128) + (b.size.y as i128);

    if !(a_min_x < b_max_x && a_max_x > b_min_x && a_min_y < b_max_y && a_max_y > b_min_y) {
        return None;
    }
    let (x_side, x_reach): (Collision, i128) = if a_min_x < b_min_x && a_max_x > b_min_x && a_max_x
        < b_max_x {
        (Collision::Left, a_max_x - b_min_x)
    } else if a_min_x > b_min_x && a_min_x < b_max_x && a_max_x > b_max_x {
        (Collision::Right, b_max_x - a_min_x)
    } else {
        (Collision::Inside, 0)
    };
    let (y_side, y_reach): (Collision, i128) = if a_min_y < b_min_y && a_max_y > b_min_y && a_max_y
        < b_max_y {
        (Collision::Bottom, a_max_y - b_min_y)
    } else if a_min_y > b_min_y && a_min_y < b_max_y && a_max_y > b_max_y {
        (Collision::Top, b_max_y - a_min_y)
    } else {
        (Collision::Inside, 0)
    };
    let y_straddles = match y_side {
        Collision::Inside => false,
        _ => true,
    };
    let x_straddles = match x_side {
        Collision::Inside => false,
        _ => true,
    };
    if y_straddles && (!x_straddles || y_reach < x_reach) {
        Some(y_side)
    } else {
        Some(x_side)
    }
}

/// A velocity that can be reversed on either axis.
pub open spec fn reversible(v: Vec2) -> bool {
    v.x > i64::MIN && v.y > i64::MIN
}

/// The velocity after a hit on `face`: the one axis that points into the
/// face is reversed, and nothing changes where the velocity already points
/// away from it or the hit is `Inside`.
pub open spec fn reflect_spec(v: Vec2, face: Collision) -> Vec2 {
    match face {
        Collision::Left => if v.x > 0 {
            Vec2 { x: (-v.x) as i64, y: v.y }
        } else {
            v
        },
        Collision::Right => if v.x < 0 {
            Vec2 { x: (-v.x) as i64, y: v.y }
        } else {
            v
        },
        Collision::Top => if v.y < 0 {
            Vec2 { x: v.x, y: (-v.y) as i64 }
        } else {
            v
        },
        Collision::Bottom => if v.y > 0 {
            Vec2 { x: v.x, y: (-v.y) as i64 }
        } else {
            v
        },
        Collision::Inside => v,
    }
}

/// Reflects `v` at `face`.
pub fn reflect(v: Vec2, face: Collision) -> (r: Vec2)
    requires
        reversible(v),
    ensures
        r == reflect_spec(v, face),
        reversible(r),
{
    let mut r = v;
    match face {
        Collision::Left => {
            if v.x > 0 {
                r.x = -v.x;
            }
        },
        Collision::Right => {
            if v.x < 0 {
                r.x = -v.x;
            }
        },
        Collision::Top => {
            if v.y < 0 {
                r.y = -v.y;
            }
        },
        Collision::Bottom => {
            if v.y > 0 {
                r.y = -v.y;
            }
        },
        Collision::Inside => {},
    }
    r
}

/// `v` points into `face`, so a hit on that face reverses it.
pub open spec fn points_into(v: Vec2, face: Collision) -> bool {
    match face {
        Collision::Left => v.x > 0,
        Collision::Right => v.x < 0,
        Collision::Top => v.y < 0,
        Collision::Bottom => v.y > 0,
        Collision::Inside => false,
    }
}

/// A hit reverses exactly one axis where the velocity points into the face,
/// and leaves the velocity as it is where it does not. The speed on each
/// axis is kept.
pub proof fn lemma_reflect_one_axis(v: Vec2, face: Collision)
    requires
        reversible(v),
    ensures
        points_into(v, face) ==> {
            let r = reflect_spec(v, face);
            ||| (r.x == -v.x && r.y == v.y && (face == Collision::Left || face
                == Collision::Right))
            ||| (r.y == -v.y && r.x == v.x && (face == Collision::Top || face
                == Collision::Bottom))
        },
        !points_into(v, face) ==> reflect_spec(v, face) == v,
        !points_into(reflect_spec(v, face), face),
{
}

/// Reflecting twice at the same face is reflecting once: the second hit
/// finds the velocity pointing away.
pub proof fn lemma_reflect_idempotent(v: Vec2, face: Collision)
    requires
        reversible(v),
    ensures
        reflect_spec(reflect_spec(v, face), face) == reflect_spec(v, face),
{
}

} // verus!
