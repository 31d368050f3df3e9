//! The records that the game rules read and write.

use vstd::prelude::*;
use crate::math::Vec2;

verus! {

/// An axis-aligned rectangle: its centre and its width and height.
#[derive(Clone, Copy, Debug, PartialEq, Eq, Structural)]
pub struct Body {
    pub position: Vec2,
    pub size: Vec2,
}

impl Body {
    pub fn new(position: Vec2, size: Vec2) -> (body: Body)
        ensures
            body.position == position,
            body.size == size,
    {
        Body { position, size }
    }

    /// Twice the `x` of the left edge. Edges are kept doubled so that an odd
    /// extent needs no rounding.
    pub open spec fn left2(self) -> int {
        2 * self.position.x - self.size.x
    }

    /// Twice the `x` of the right edge.
    pub open spec fn right2(self) -> int {
        2 * self.position.x + self.size.x
    }

    /// Twice the `y` of the bottom edge.
    pub open spec fn bottom2(self) -> int {
        2 * self.position.y - self.size.y
    }

    /// Twice the `y` of the top edge.
    pub open spec fn top2(self) -> int {
        2 * self.position.y + self.size.y
    }
}

/// What a collider is. Every collider is exactly one of these.
#[derive(Clone, Copy, Debug, PartialEq, Eq, Structural)]
pub enum ColliderKind {
    Wall,
    Paddle,
    Brick,
    FailZone,
}

/// A rectangle that the ball is tested against.
#[derive(Clone, Copy, Debug, PartialEq, Eq, Structural)]
pub struct Collider {
    pub kind: ColliderKind,
    pub body: Body,
}

/// A brick: hitting it scores a point and removes it.
#[derive(Clone, Copy, Debug, PartialEq, Eq, Structural)]
pub struct Brick {
    pub body: Body,
}

impl Brick {
    pub open spec fn as_collider(self) -> Collider {
        Collider { kind: ColliderKind::Brick, body: self.body }
    }

    pub fn collider(&self) -> (c: Collider)
        ensures
            c == self.as_collider(),
    {
        Collider { kind: ColliderKind::Brick, body: self.body }
    }
}

/// The zone in which a ball is lost: hitting it ends the game.
#[derive(Clone, Copy, Debug, PartialEq, Eq, Structural)]
pub struct FailZone {
    pub body: Body,
}

impl FailZone {
    pub open spec fn as_collider(self) -> Collider {
        Collider { kind: ColliderKind::FailZone, body: self.body }
    }

    pub fn collider(&self) -> (c: Collider)
        ensures
            c == self.as_collider(),
    {
        Collider { kind: ColliderKind::FailZone, body: self.body }
    }
}

/// The score of the running session.
#[derive(Clone, Copy, Debug, PartialEq, Eq, Structural)]
pub struct GameData {
    pub score: u64,
}

/// The score as it is shown to the player.
#[derive(Clone, Copy, Debug, PartialEq, Eq, Structural)]
pub struct Scoreboard {
    pub shown: u64,
}

/// The colliders that are not of `kind`, in their old order.
pub open spec fn without_kind(colliders: Seq<Collider>, kind: ColliderKind) -> Seq<Collider>
    decreases colliders.len(),
{
    if colliders.len() == 0 {
        Seq::empty()
    } else if colliders.last().kind == kind {
        without_kind(colliders.drop_last(), kind)
    } else {
        without_kind(colliders.drop_last(), kind).push(colliders.last())
    }
}

/// Removes every collider of one kind.
pub fn despawn_entities(colliders: &mut Vec<Collider>, kind: ColliderKind)
    ensures
        final(colliders)@ == without_kind(old(colliders)@, kind),
{
    let ghost all = colliders@;
    let mut kept: Vec<Collider> = Vec::new();
    let n = colliders.len();
    let mut i: usize = 0;
    while i < n
        invariant
            0 <= i <= n,
            n == all.len(),
            colliders@ == all,
            kept@ == without_kind(all.take(i as int), kind),
        decreases n - i,
    {
        let c = colliders[i];
        proof {
            assert(all.take(i + 1).drop_last() =~= all.take(i as int));
            assert(all.take(i + 1).last() == c);
        }
        if c.kind != kind {
            kept.push(c);
        }
        i = i + 1;
    }
    proof {
        assert(all.take(n as int) =~= all);
    }
    *colliders = kept;
}

/// Removes every wall.
pub fn despawn_walls(colliders: &mut Vec<Collider>)
    ensures
        final(colliders)@ == without_kind(old(colliders)@, ColliderKind::Wall),
{
    despawn_entities(colliders, ColliderKind::Wall);
}

} // verus!
