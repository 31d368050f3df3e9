//! The arena: the playable bounds inside a viewport and the four walls
//! around them.

use vstd::prelude::*;
use crate::components::{Body, Collider, ColliderKind};
use crate::math::Vec2;

verus! {

/// Thickness of every wall.
pub const WALL_THICKNESS: i64 = 10_000;

/// Horizontal inset of the arena from half the viewport's width.
pub const X_OFFSET: i64 = -100_000;

/// Vertical inset of the arena from half the viewport's height.
pub const Y_OFFSET: i64 = -15_000;

/// The size of the viewport, in world units.
#[derive(Clone, Copy, Debug, PartialEq, Eq, Structural)]
pub struct Viewport {
    pub width: u32,
    pub height: u32,
}

/// Half the width of the playable area: the `x` of the right wall's centre.
pub open spec fn half_width(viewport_width: int) -> int {
    viewport_width / 2 + X_OFFSET
}

/// Half the height of the playable area: the `y` of the top wall's centre.
pub open spec fn half_height(viewport_height: int) -> int {
    viewport_height / 2 + Y_OFFSET
}

/// The playable bounds of a viewport.
#[derive(Clone, Copy, Debug, PartialEq, Eq, Structural)]
pub struct ArenaBounds {
    pub left: i64,
    pub right: i64,
    pub top: i64,
    pub bottom: i64,
    pub wall_thickness: i64,
}

/// Derives the playable bounds from the viewport's size. Nothing is cached:
/// whoever holds bounds derives them anew when the viewport changes.
pub fn compute_bounds(viewport_width: u32, viewport_height: u32) -> (bounds: ArenaBounds)
    ensures
        bounds.right == half_width(viewport_width as int),
        bounds.left == -half_width(viewport_width as int),
        bounds.top == half_height(viewport_height as int),
        bounds.bottom == -half_height(viewport_height as int),
        bounds.wall_thickness == WALL_THICKNESS,
{
    let half_w: i64 = ((viewport_width / 2) as i64) + X_OFFSET;
    let half_h: i64 = ((viewport_height / 2) as i64) + Y_OFFSET;
    ArenaBounds {
        left: -half_w,
        right: half_w,
        top: half_h,
        bottom: -half_h,
        wall_thickness: WALL_THICKNESS,
    }
}

/// Which side of the arena a wall stands on.
#[derive(Clone, Copy, Debug, PartialEq, Eq, Structural)]
pub enum WallLocation {
    Left,
    Right,
    Bottom,
    Top,
}

impl WallLocation {
    /// The centre of the wall.
    pub open spec fn position_spec(self, viewport: Viewport) -> Vec2 {
        match self {
            WallLocation::Left => Vec2 { x: (-half_width(viewport.width as int)) as i64, y: 0 },
            WallLocation::Right => Vec2 { x: half_width(viewport.width as int) as i64, y: 0 },
            WallLocation::Bottom => Vec2 {
                x: 0,
                y: (-half_height(viewport.height as int)) as i64,
            },
            WallLocation::Top => Vec2 { x: 0, y: half_height(viewport.height as int) as i64 },
        }
    }

    /// The width and height of the wall. A side wall spans the arena's
    /// height and a top or bottom wall its width, each plus one thickness
    /// so that the corners close.
    pub open spec fn size_spec(self, viewport: Viewport) -> Vec2 {
        match self {
            WallLocation::Left | WallLocation::Right => Vec2 {
                x: WALL_THICKNESS,
                y: (2 * half_height(viewport.height as int) + WALL_THICKNESS) as i64,
            },
            WallLocation::Bottom | WallLocation::Top => Vec2 {
                x: (2 * half_width(viewport.width as int) + WALL_THICKNESS) as i64,
                y: WALL_THICKNESS,
            },
        }
    }

    pub fn position(&self, viewport: &Viewport) -> (p: Vec2)
        ensures
            p == self.position_spec(*viewport),
            p.x == match *self {
                WallLocation::Left => -half_width(viewport.width as int),
                WallLocation::Right => half_width(viewport.width as int),
                _ => 0,
            },
            p.y == match *self {
                WallLocation::Bottom => -half_height(viewport.height as int),
                WallLocation::Top => half_height(viewport.height as int),
                _ => 0,
            },
    {
        let bounds = compute_bounds(viewport.width, viewport.height);
        match self {
            WallLocation::Left => Vec2 { x: bounds.left, y: 0 },
            WallLocation::Right => Vec2 { x: bounds.right, y: 0 },
            WallLocation::Bottom => Vec2 { x: 0, y: bounds.bottom },
            WallLocation::Top => Vec2 { x: 0, y: bounds.top },
        }
    }

    pub fn size(&self, viewport: &Viewport) -> (s: Vec2)
        ensures
            s == self.size_spec(*viewport),
            s.x == match *self {
                WallLocation::Left | WallLocation::Right => WALL_THICKNESS as int,
                _ => 2 * half_width(viewport.width as int) + WALL_THICKNESS,
            },
            s.y == match *self {
                WallLocation::Left | WallLocation::Right => 2 * half_height(
                    viewport.height as int,
                ) + WALL_THICKNESS,
                _ => WALL_THICKNESS as int,
            },
    {
        let bounds = compute_bounds(viewport.width, viewport.height);
        let side_wall_size: i64 = bounds.top * 2 + bounds.wall_thickness;
        let top_wall_size: i64 = bounds.right * 2 + bounds.wall_thickness;
        match self {
            WallLocation::Left => Vec2 { x: bounds.wall_thickness, y: side_wall_size },
            WallLocation::Right => Vec2 { x: bounds.wall_thickness, y: side_wall_size },
            WallLocation::Bottom => Vec2 { x: top_wall_size, y: bounds.wall_thickness },
            WallLocation::Top => Vec2 { x: top_wall_size, y: bounds.wall_thickness },
        }
    }
}

/// One wall of the arena.
#[derive(Clone, Copy, Debug, PartialEq, Eq, Structural)]
pub struct Wall {
    pub location: WallLocation,
    pub body: Body,
}

impl Wall {
    /// The wall on one side of the arena of a viewport.
    pub open spec fn at(location: WallLocation, viewport: Viewport) -> Wall {
        Wall {
            location,
            body: Body {
                position: location.position_spec(viewport),
                size: location.size_spec(viewport),
            },
        }
    }

    pub fn new(location: WallLocation, viewport: &Viewport) -> (wall: Wall)
        ensures
            wall == Wall::at(location, *viewport),
    {
        Wall {
            location,
            body: Body { position: location.position(viewport), size: location.size(viewport) },
        }
    }

    pub open spec fn as_collider(self) -> Collider {
        Collider { kind: ColliderKind::Wall, body: self.body }
    }

    pub fn collider(&self) -> (c: Collider)
        ensures
            c == self.as_collider(),
    {
        Collider { kind: ColliderKind::Wall, body: self.body }
    }
}

/// The four walls of the arena: left, right, top, bottom.
pub open spec fn walls_of(viewport: Viewport) -> Seq<Wall> {
    seq![
        Wall::at(WallLocation::Left, viewport),
        Wall::at(WallLocation::Right, viewport),
        Wall::at(WallLocation::Top, viewport),
        Wall::at(WallLocation::Bottom, viewport),
    ]
}

/// Builds the four walls of the arena.
pub fn render_walls(viewport: &Viewport) -> (walls: Vec<Wall>)
    ensures
        walls@ == walls_of(*viewport),
{
    let mut walls: Vec<Wall> = Vec::new();
    walls.push(Wall::new(WallLocation::Left, viewport));
    walls.push(Wall::new(WallLocation::Right, viewport));
    walls.push(Wall::new(WallLocation::Top, viewport));
    walls.push(Wall::new(WallLocation::Bottom, viewport));
    walls
}

} // verus!
