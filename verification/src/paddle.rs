//! The paddle: where it starts, how the keys move it, and the bounds that
//! hold it.

use vstd::prelude::*;
use crate::ball::displacement;
use crate::components::{Body, Collider, ColliderKind};
use crate::math::Vec2;
use crate::walls::{compute_bounds, half_height, half_width, Viewport};

verus! {

pub const PADDLE_WIDTH: i64 = 120_000;

pub const PADDLE_HEIGHT: i64 = 20_000;

/// Speed of a new paddle, in units per second.
pub const PADDLE_SPEED: u32 = 600_000;

/// By how much one key press changes the paddle's speed.
pub const PADDLE_SPEED_STEP: u32 = 50_000;

/// How close the paddle's centre may come to a side of the arena.
pub const PADDLE_PADDING: i64 = 20_000;

/// How far the paddle stands above the bottom of the arena.
pub const GAP_BETWEEN_PADDLE_AND_FLOOR: i64 = 60_000;

/// The paddle: a body and the speed at which the keys move it.
#[derive(Clone, Copy, Debug, PartialEq, Eq, Structural)]
pub struct Paddle {
    pub body: Body,
    pub speed: u32,
}

impl Paddle {
    pub open spec fn as_collider(self) -> Collider {
        Collider { kind: ColliderKind::Paddle, body: self.body }
    }

    pub fn collider(&self) -> (c: Collider)
        ensures
            c == self.as_collider(),
    {
        Collider { kind: ColliderKind::Paddle, body: self.body }
    }
}

/// The `y` at which the paddle stands.
pub open spec fn paddle_y(viewport_height: int) -> int {
    -(half_height(viewport_height) - GAP_BETWEEN_PADDLE_AND_FLOOR)
}

/// A new paddle: centred, above the floor, at the starting speed.
pub open spec fn new_paddle(viewport: Viewport) -> Paddle {
    Paddle {
        body: Body {
            position: Vec2 { x: 0, y: paddle_y(viewport.height as int) as i64 },
            size: Vec2 { x: PADDLE_WIDTH, y: PADDLE_HEIGHT },
        },
        speed: PADDLE_SPEED,
    }
}

/// Builds a new paddle for the arena of a viewport.
pub fn render_paddle(viewport: &Viewport) -> (paddle: Paddle)
    ensures
        paddle == new_paddle(*viewport),
        paddle.body.position.x == 0,
        paddle.body.position.y == paddle_y(viewport.height as int),
        paddle.body.size == (Vec2 { x: PADDLE_WIDTH, y: PADDLE_HEIGHT }),
        paddle.speed == PADDLE_SPEED,
{
    let bounds = compute_bounds(viewport.width, viewport.height);
    Paddle {
        body: Body {
            position: Vec2 { x: 0, y: -(bounds.top - GAP_BETWEEN_PADDLE_AND_FLOOR) },
            size: Vec2 { x: PADDLE_WIDTH, y: PADDLE_HEIGHT },
        },
        speed: PADDLE_SPEED,
    }
}

/// The `x` of the side walls' centres: half the width of the arena.
pub fn calculate_wall_boundary(viewport_width: u32) -> (boundary: i64)
    ensures
        boundary == half_width(viewport_width as int),
{
    compute_bounds(viewport_width, 0).right
}

/// The leftmost `x` of the paddle's centre.
pub open spec fn left_bound(viewport_width: int) -> int {
    -half_width(viewport_width) + PADDLE_PADDING
}

/// The rightmost `x` of the paddle's centre.
pub open spec fn right_bound(viewport_width: int) -> int {
    half_width(viewport_width) - PADDLE_PADDING
}

/// The arena of the viewport is wide enough to hold the paddle's bounds.
pub fn has_paddle_room(viewport_width: u32) -> (room: bool)
    ensures
        room == (left_bound(viewport_width as int) <= right_bound(viewport_width as int)),
{
    calculate_wall_boundary(viewport_width) >= PADDLE_PADDING
}

/// `v`, held to `low ..= high`.
pub open spec fn clamp_spec(v: int, low: int, high: int) -> int {
    if v < low {
        low
    } else if v > high {
        high
    } else {
        v
    }
}

/// The direction that the keys ask for: right counts `+1`, left `-1`, and
/// both together cancel.
pub open spec fn direction_spec(left_pressed: bool, right_pressed: bool) -> int {
    (if right_pressed {
        1int
    } else {
        0int
    }) - (if left_pressed {
        1int
    } else {
        0int
    })
}

pub fn paddle_direction(left_pressed: bool, right_pressed: bool) -> (direction: i8)
    ensures
        direction == direction_spec(left_pressed, right_pressed),
{
    let mut direction: i8 = 0;
    if right_pressed {
        direction = direction + 1;
    }
    if left_pressed {
        direction = direction - 1;
    }
    direction
}

/// Moves the paddle's centre along `x` and holds it to its bounds:
/// `clamp(current_x + direction * speed * dt, left_bound, right_bound)`.
pub fn move_paddle(
    current_x: i64,
    direction: i8,
    speed: u32,
    dt_micros: u64,
    left_bound: i64,
    right_bound: i64,
) -> (new_x: i64)
    requires
        -1 <= direction <= 1,
        left_bound <= right_bound,
    ensures
        new_x == clamp_spec(
            current_x + direction * displacement(speed as int, dt_micros as int),
            left_bound as int,
            right_bound as int,
        ),
{
    assert(0 <= (speed as int) * (dt_micros as int) <= 0xffff_ffff * 0xffff_ffff_ffff_ffff)
        by (nonlinear_arith)
        requires
            0 <= speed <= 0xffff_ffff,
            0 <= dt_micros <= 0xffff_ffff_ffff_ffff,
    ;
    let step: i128 = ((speed as i128) * (dt_micros as i128)) / 1_000_000;
    let target: i128 = if direction > 0 {
        (current_x as i128) + step
    } else if direction < 0 {
        (current_x as i128) - step
    } else {
        current_x as i128
    };
    assert(target == current_x + direction * displacement(speed as int, dt_micros as int))
        by (nonlinear_arith)
        requires
            -1 <= direction <= 1,
            step == displacement(speed as int, dt_micros as int),
            target == if direction > 0 {
                current_x + step
            } else if direction < 0 {
                current_x - step
            } else {
                current_x as int
            },
    ;
    if target < (left_bound as i128) {
        left_bound
    } else if target > (right_bound as i128) {
        right_bound
    } else {
        target as i64
    }
}

/// The speed after the speed keys: one step up where `faster` is pressed,
/// held to the largest speed there is, then one step down where `slower` is
/// pressed, held to zero. The speed is never negative.
pub open spec fn adjusted_speed(speed: int, faster: bool, slower: bool) -> int {
    let raised = if faster {
        clamp_spec(speed + PADDLE_SPEED_STEP, 0, u32::MAX as int)
    } else {
        speed
    };
    if slower {
        clamp_spec(raised - PADDLE_SPEED_STEP, 0, u32::MAX as int)
    } else {
        raised
    }
}

pub fn adjust_speed(speed: u32, faster: bool, slower: bool) -> (adjusted: u32)
    ensures
        adjusted == adjusted_speed(speed as int, faster, slower),
{
    let mut adjusted = speed;
    if faster {
        adjusted = if adjusted > u32::MAX - PADDLE_SPEED_STEP {
            u32::MAX
        } else {
            adjusted + PADDLE_SPEED_STEP
        };
    }
    if slower {
        adjusted = if adjusted < PADDLE_SPEED_STEP {
            0
        } else {
            adjusted - PADDLE_SPEED_STEP
        };
    }
    adjusted
}

/// The paddle after one tick of control: the speed keys change the speed,
/// then the arrow keys move the paddle at the new speed, within the bounds
/// that the viewport gives at this tick.
pub open spec fn paddle_after(
    paddle: Paddle,
    left_pressed: bool,
    right_pressed: bool,
    faster: bool,
    slower: bool,
    dt_micros: u64,
    viewport_width: u32,
) -> Paddle {
    let speed = adjusted_speed(paddle.speed as int, faster, slower);
    let x = clamp_spec(
        paddle.body.position.x + direction_spec(left_pressed, right_pressed) * displacement(
            speed,
            dt_micros as int,
        ),
        left_bound(viewport_width as int),
        right_bound(viewport_width as int),
    );
    Paddle {
        body: Body {
            position: Vec2 { x: x as i64, y: paddle.body.position.y },
            size: paddle.body.size,
        },
        speed: speed as u32,
    }
}

/// Runs one tick of paddle control.
pub fn handle_paddle_move(
    paddle: &mut Paddle,
    left_pressed: bool,
    right_pressed: bool,
    faster: bool,
    slower: bool,
    dt_micros: u64,
    viewport_width: u32,
)
    requires
        left_bound(viewport_width as int) <= right_bound(viewport_width as int),
    ensures
        *final(paddle) == paddle_after(
            *old(paddle),
            left_pressed,
            right_pressed,
            faster,
            slower,
            dt_micros,
            viewport_width,
        ),
        final(paddle).speed == adjusted_speed(old(paddle).speed as int, faster, slower),
        final(paddle).body.size == old(paddle).body.size,
        final(paddle).body.position.y == old(paddle).body.position.y,
        final(paddle).body.position.x == clamp_spec(
            old(paddle).body.position.x + direction_spec(left_pressed, right_pressed)
                * displacement(final(paddle).speed as int, dt_micros as int),
            left_bound(viewport_width as int),
            right_bound(viewport_width as int),
        ),
        left_bound(viewport_width as int) <= final(paddle).body.position.x <= right_bound(
            viewport_width as int,
        ),
{
    let direction = paddle_direction(left_pressed, right_pressed);
    paddle.speed = adjust_speed(paddle.speed, faster, slower);
    let boundary = calculate_wall_boundary(viewport_width);
    paddle.body.position.x = move_paddle(
        paddle.body.position.x,
        direction,
        paddle.speed,
        dt_micros,
        -boundary + PADDLE_PADDING,
        boundary - PADDLE_PADDING,
    );
}

} // verus!
