//! The ball: how it is launched, how it moves, and what happens when it
//! meets the colliders of the arena.

use vstd::prelude::*;
use rand::Rng;
use crate::collision::{collide, collide_spec, reflect, reflect_spec, reversible, Collision};
use crate::components::{Body, Collider, ColliderKind, GameData};
use crate::math::{
    div_toward_zero, is_floor_sqrt, isqrt, lemma_floor_sqrt_unique, magnitude, Vec2,
};

verus! {

/// Where a new ball starts.
pub const BALL_STARTING_X: i64 = 0;

pub const BALL_STARTING_Y: i64 = -150_000;

/// Width and height of the ball.
pub const BALL_SIZE: i64 = 30_000;

/// Speed of a new ball, in units per second.
pub const BALL_SPEED: u32 = 165_000;

/// The launch direction is drawn from these ranges, upper ends excluded, so
/// a new ball always heads downwards.
pub const LAUNCH_X_MIN: i32 = -600;

pub const LAUNCH_X_END: i32 = 600;

pub const LAUNCH_Y_MIN: i32 = -700;

pub const LAUNCH_Y_END: i32 = -100;

/// The ball: a body with a velocity.
#[derive(Clone, Copy, Debug, PartialEq, Eq, Structural)]
pub struct Ball {
    pub body: Body,
    pub velocity: Vec2,
}

/// How far a body with speed `v` on one axis moves in `dt_micros`
/// microseconds: `v * dt_micros / 1_000_000`, rounded toward zero.
pub open spec fn displacement(v: int, dt_micros: int) -> int {
    div_toward_zero(v * dt_micros, 1_000_000)
}

/// The position after the move fits the coordinate type.
pub open spec fn advance_fits(position: Vec2, velocity: Vec2, dt_micros: u64) -> bool {
    &&& i64::MIN <= position.x + displacement(velocity.x as int, dt_micros as int) <= i64::MAX
    &&& i64::MIN <= position.y + displacement(velocity.y as int, dt_micros as int) <= i64::MAX
}

/// The position after the move, if it fits the coordinate type.
pub fn try_advance(position: Vec2, velocity: Vec2, dt_micros: u64) -> (moved: Option<Vec2>)
    ensures
        moved.is_some() == advance_fits(position, velocity, dt_micros),
        moved matches Some(p) ==> {
            &&& p.x == position.x + displacement(velocity.x as int, dt_micros as int)
            &&& p.y == position.y + displacement(velocity.y as int, dt_micros as int)
        },
{
    let x = moved_coordinate(position.x, velocity.x, dt_micros);
    let y = moved_coordinate(position.y, velocity.y, dt_micros);
    match (x, y) {
        (Some(x), Some(y)) => Some(Vec2 { x, y }),
        _ => None,
    }
}

fn moved_coordinate(p: i64, v: i64, dt_micros: u64) -> (moved: Option<i64>)
    ensures
        moved.is_some() == (i64::MIN <= p + displacement(v as int, dt_micros as int) <= i64::MAX),
        moved matches Some(q) ==> q == p + displacement(v as int, dt_micros as int),
{
    assert(-0x8000_0000_0000_0000 * 0xffff_ffff_ffff_ffff <= (v as int) * (dt_micros as int)
        <= 0x7fff_ffff_ffff_ffff * 0xffff_ffff_ffff_ffff) by (nonlinear_arith)
        requires
            -0x8000_0000_0000_0000 <= v <= 0x7fff_ffff_ffff_ffff,
            0 <= dt_micros <= 0xffff_ffff_ffff_ffff,
    ;
    let product: i128 = (v as i128) * (dt_micros as i128);
    let step: i128 = product / 1_000_000;
    let sum: i128 = (p as i128) + step;
    if sum < (i64::MIN as i128) || sum > (i64::MAX as i128) {
        None
    } else {
        Some(sum as i64)
    }
}

/// Moves a body: `position + velocity * dt`, with no clamping.
pub fn advance(position: Vec2, velocity: Vec2, dt_micros: u64) -> (moved: Vec2)
    requires
        advance_fits(position, velocity, dt_micros),
    ensures
        moved.x == position.x + displacement(velocity.x as int, dt_micros as int),
        moved.y == position.y + displacement(velocity.y as int, dt_micros as int),
{
    match try_advance(position, velocity, dt_micros) {
        Some(moved) => moved,
        None => position,
    }
}

/// The ball after it has moved by its velocity for `dt_micros`. Size and
/// velocity stay as they are.
pub open spec fn moved_ball(ball: Ball, dt_micros: u64) -> Ball {
    Ball {
        body: Body {
            position: Vec2 {
                x: (ball.body.position.x + displacement(
                    ball.velocity.x as int,
                    dt_micros as int,
                )) as i64,
                y: (ball.body.position.y + displacement(
                    ball.velocity.y as int,
                    dt_micros as int,
                )) as i64,
            },
            size: ball.body.size,
        },
        velocity: ball.velocity,
    }
}

/// Moves the ball by its velocity.
pub fn apply_velocity(ball: &mut Ball, dt_micros: u64)
    requires
        advance_fits(old(ball).body.position, old(ball).velocity, dt_micros),
    ensures
        *final(ball) == moved_ball(*old(ball), dt_micros),
        final(ball).velocity == old(ball).velocity,
        final(ball).body.size == old(ball).body.size,
        final(ball).body.position.x == old(ball).body.position.x + displacement(
            old(ball).velocity.x as int,
            dt_micros as int,
        ),
        final(ball).body.position.y == old(ball).body.position.y + displacement(
            old(ball).velocity.y as int,
            dt_micros as int,
        ),
{
    ball.body.position = advance(ball.body.position, ball.velocity, dt_micros);
}

/// The square of one axis' share of the speed: `d² · speed² / (d² + other²)`,
/// rounded down.
pub open spec fn axis_share(d: int, other: int, speed: int) -> int {
    ((d * d) * (speed * speed)) / (d * d + other * other)
}

/// One axis of the velocity of a body launched along `(d, other)` at `speed`:
/// the square root of `axis_share`, rounded down, with the sign of `d`.
pub open spec fn is_launch_axis(v: int, d: int, other: int, speed: int) -> bool {
    &&& is_floor_sqrt(magnitude(v), axis_share(d, other, speed))
    &&& d >= 0 ==> v >= 0
    &&& d <= 0 ==> v <= 0
}

/// `v` is the velocity of a body launched along `(dx, dy)` at `speed`. The
/// direction is normalised, so only the ratio of `dx` and `dy` counts, and
/// rounding never lets the length of `v` exceed `speed`.
pub open spec fn is_launch(v: Vec2, dx: int, dy: int, speed: int) -> bool {
    &&& is_launch_axis(v.x as int, dx, dy, speed)
    &&& is_launch_axis(v.y as int, dy, dx, speed)
}

/// A direction and a speed have one launch velocity.
pub proof fn lemma_launch_unique(v: Vec2, w: Vec2, dx: int, dy: int, speed: int)
    requires
        is_launch(v, dx, dy, speed),
        is_launch(w, dx, dy, speed),
    ensures
        v == w,
{
    lemma_floor_sqrt_unique(magnitude(v.x as int), magnitude(w.x as int), axis_share(dx, dy, speed));
    lemma_floor_sqrt_unique(magnitude(v.y as int), magnitude(w.y as int), axis_share(dy, dx, speed));
}

fn launch_axis(d: i32, other: i32, speed: u32) -> (v: i64)
    requires
        d != 0 || other != 0,
    ensures
        is_launch_axis(v as int, d as int, other as int, speed as int),
        -(speed as int) <= v <= speed as int,
{
    let dw: i64 = d as i64;
    let ow: i64 = other as i64;
    assert(0 <= dw * dw <= 0x4000_0000_0000_0000) by (nonlinear_arith)
        requires
            -0x8000_0000 <= dw <= 0x8000_0000,
    ;
    assert(0 <= ow * ow <= 0x4000_0000_0000_0000) by (nonlinear_arith)
        requires
            -0x8000_0000 <= ow <= 0x8000_0000,
    ;
    assert(dw * dw + ow * ow > 0) by (nonlinear_arith)
        requires
            dw != 0 || ow != 0,
    ;
    assert(dw == 0 ==> dw * dw == 0) by (nonlinear_arith);
    let d2: u128 = (dw * dw) as u128;
    let n: u128 = d2 + ((ow * ow) as u128);
    let sw: u128 = speed as u128;
    assert(0 <= sw * sw <= 0xffff_ffff * 0xffff_ffff) by (nonlinear_arith)
        requires
            0 <= sw <= 0xffff_ffff,
    ;
    let s2: u128 = sw * sw;
    assert(0 <= d2 * s2 <= 0x4000_0000_0000_0000 * (0xffff_ffff * 0xffff_ffff)) by (nonlinear_arith)
        requires
            0 <= d2 <= 0x4000_0000_0000_0000,
            0 <= s2 <= 0xffff_ffff * 0xffff_ffff,
    ;
    let share: u128 = (d2 * s2) / n;
    assert(d == 0 ==> share == 0) by (nonlinear_arith)
        requires
            share == (d2 * s2) / (n as int),
            d == 0 ==> d2 == 0,
            n > 0,
    ;
    assert(share <= s2) by (nonlinear_arith)
        requires
            share == (d2 * s2) / (n as int),
            0 <= d2 <= n,
            n > 0,
            s2 >= 0,
    ;
    let root: u32 = isqrt(share as u64);
    assert(root <= sw) by (nonlinear_arith)
        requires
            0 <= root,
            0 <= sw,
            root * root <= share,
            share <= sw * sw,
    ;
    assert(share == axis_share(d as int, other as int, speed as int));
    assert(d == 0 ==> root == 0) by (nonlinear_arith)
        requires
            d == 0 ==> share == 0,
            0 <= root,
            root * root <= share,
    ;
    if d >= 0 {
        root as i64
    } else {
        -(root as i64)
    }
}

/// The velocity of a body launched along `(dx, dy)` at `speed` units per
/// second.
pub fn launch_velocity(dx: i32, dy: i32, speed: u32) -> (v: Vec2)
    requires
        dx != 0 || dy != 0,
    ensures
        is_launch(v, dx as int, dy as int, speed as int),
        -(speed as int) <= v.x <= speed as int,
        -(speed as int) <= v.y <= speed as int,
{
    Vec2 { x: launch_axis(dx, dy, speed), y: launch_axis(dy, dx, speed) }
}

/// A new ball at the starting position, launched along `(dx, dy)`.
pub fn spawn_ball(dx: i32, dy: i32) -> (ball: Ball)
    requires
        dx != 0 || dy != 0,
    ensures
        ball.body.position == (Vec2 { x: BALL_STARTING_X, y: BALL_STARTING_Y }),
        ball.body.size == (Vec2 { x: BALL_SIZE, y: BALL_SIZE }),
        is_launch(ball.velocity, dx as int, dy as int, BALL_SPEED as int),
        reversible(ball.velocity),
{
    Ball {
        body: Body {
            position: Vec2 { x: BALL_STARTING_X, y: BALL_STARTING_Y },
            size: Vec2 { x: BALL_SIZE, y: BALL_SIZE },
        },
        velocity: launch_velocity(dx, dy, BALL_SPEED),
    }
}

/// Draws one number from the thread's random generator with
/// `rand::Rng::gen_range` on the half-open range `low..high`. The generator
/// promises only that the number lies in the range, and panics on an empty
/// one, which `requires` leaves out.
#[verifier::external_body]
fn random_in_range(low: i32, high: i32) -> (drawn: i32)
    requires
        low < high,
    ensures
        low <= drawn < high,
{
    rand::thread_rng().gen_range(low..high)
}

/// What holds of every new ball: it stands at the starting position, and
/// its velocity is that of a launch at `BALL_SPEED` along some direction of
/// the launch ranges, so it heads downwards.
pub open spec fn is_new_ball(ball: Ball) -> bool {
    &&& ball.body.position == (Vec2 { x: BALL_STARTING_X, y: BALL_STARTING_Y })
    &&& ball.body.size == (Vec2 { x: BALL_SIZE, y: BALL_SIZE })
    &&& exists|dx: int, dy: int|
        LAUNCH_X_MIN <= dx < LAUNCH_X_END && LAUNCH_Y_MIN <= dy < LAUNCH_Y_END
            && #[trigger] is_launch(ball.velocity, dx, dy, BALL_SPEED as int)
    &&& ball.velocity.y <= 0
    &&& reversible(ball.velocity)
}

/// A new ball at the starting position, launched downwards in a random
/// direction.
pub fn render_ball() -> (ball: Ball)
    ensures
        is_new_ball(ball),
{
    let dx = random_in_range(LAUNCH_X_MIN, LAUNCH_X_END);
    let dy = random_in_range(LAUNCH_Y_MIN, LAUNCH_Y_END);
    let ball = spawn_ball(dx, dy);
    assert(is_launch(ball.velocity, dx as int, dy as int, BALL_SPEED as int));
    ball
}

/// The face of `c` that the ball strikes. A ball that overlaps `c` without
/// straddling one of its edges strikes nothing: that overlap is no event.
pub open spec fn struck(ball: Body, c: Collider) -> Option<Collision> {
    match collide_spec(ball, c.body) {
        Some(Collision::Inside) => None,
        hit => hit,
    }
}

/// The ball strikes the brick `c`, which scores and removes it.
pub open spec fn destroys(ball: Body, c: Collider) -> bool {
    c.kind == ColliderKind::Brick && struck(ball, c).is_some()
}

/// The ball strikes the fail zone `c`, which ends the game.
pub open spec fn loses(ball: Body, c: Collider) -> bool {
    c.kind == ColliderKind::FailZone && struck(ball, c).is_some()
}

/// The velocity after the ball has been tested against `c`: reflected at
/// the struck face of a wall, a paddle or a brick, unchanged by a fail zone
/// or a miss.
pub open spec fn bounce(ball: Body, v: Vec2, c: Collider) -> Vec2 {
    match struck(ball, c) {
        Some(face) => if c.kind == ColliderKind::FailZone {
            v
        } else {
            reflect_spec(v, face)
        },
        None => v,
    }
}

/// The velocity after the ball has been tested against each collider in
/// turn, first to last.
pub open spec fn velocity_after(colliders: Seq<Collider>, ball: Body, v: Vec2) -> Vec2
    decreases colliders.len(),
{
    if colliders.len() == 0 {
        v
    } else {
        bounce(ball, velocity_after(colliders.drop_last(), ball, v), colliders.last())
    }
}

/// The colliders that are left after the tick, in their old order: all but
/// the bricks that the ball struck.
pub open spec fn survivors(colliders: Seq<Collider>, ball: Body) -> Seq<Collider>
    decreases colliders.len(),
{
    if colliders.len() == 0 {
        Seq::empty()
    } else if destroys(ball, colliders.last()) {
        survivors(colliders.drop_last(), ball)
    } else {
        survivors(colliders.drop_last(), ball).push(colliders.last())
    }
}

/// How many bricks the ball struck.
pub open spec fn bricks_hit(colliders: Seq<Collider>, ball: Body) -> nat
    decreases colliders.len(),
{
    if colliders.len() == 0 {
        0
    } else if destroys(ball, colliders.last()) {
        bricks_hit(colliders.drop_last(), ball) + 1
    } else {
        bricks_hit(colliders.drop_last(), ball)
    }
}

/// The ball struck at least one fail zone.
pub open spec fn fail_zone_hit(colliders: Seq<Collider>, ball: Body) -> bool {
    exists|i: int| 0 <= i < colliders.len() && loses(ball, #[trigger] colliders[i])
}

/// Every collider is either struck as a brick or survives.
pub proof fn lemma_survivors_len(colliders: Seq<Collider>, ball: Body)
    ensures
        survivors(colliders, ball).len() + bricks_hit(colliders, ball) == colliders.len(),
    decreases colliders.len(),
{
    if colliders.len() > 0 {
        lemma_survivors_len(colliders.drop_last(), ball);
    }
}

/// A tick of collisions never changes the ball's speed on either axis, only
/// its sign, and it keeps the velocity reversible.
pub proof fn lemma_velocity_after_keeps_speed(colliders: Seq<Collider>, ball: Body, v: Vec2)
    requires
        reversible(v),
    ensures
        magnitude(velocity_after(colliders, ball, v).x as int) == magnitude(v.x as int),
        magnitude(velocity_after(colliders, ball, v).y as int) == magnitude(v.y as int),
        reversible(velocity_after(colliders, ball, v)),
    decreases colliders.len(),
{
    if colliders.len() > 0 {
        lemma_velocity_after_keeps_speed(colliders.drop_last(), ball, v);
    }
}

/// No brick is struck twice. A collider that survived the tick is not a
/// brick that the ball, where it is, strikes; so against the survivors the
/// same ball strikes no brick, scores nothing and removes nothing.
pub proof fn lemma_no_brick_is_struck_twice(colliders: Seq<Collider>, ball: Body)
    ensures
        forall|i: int|
            0 <= i < survivors(colliders, ball).len() ==> !destroys(
                ball,
                #[trigger] survivors(colliders, ball)[i],
            ),
        bricks_hit(survivors(colliders, ball), ball) == 0,
        survivors(survivors(colliders, ball), ball) == survivors(colliders, ball),
    decreases colliders.len(),
{
    if colliders.len() > 0 {
        lemma_no_brick_is_struck_twice(colliders.drop_last(), ball);
        if !destroys(ball, colliders.last()) {
            let rest = survivors(colliders.drop_last(), ball);
            let kept = rest.push(colliders.last());
            assert(kept.drop_last() =~= rest);
            assert(kept.last() == colliders.last());
        }
    }
}

/// A struck brick scores exactly one point and is removed; a collider that
/// is no struck brick scores nothing and stays.
pub proof fn lemma_one_brick_one_point(colliders: Seq<Collider>, c: Collider, ball: Body)
    ensures
        destroys(ball, c) ==> {
            &&& bricks_hit(colliders.push(c), ball) == bricks_hit(colliders, ball) + 1
            &&& survivors(colliders.push(c), ball) == survivors(colliders, ball)
        },
        !destroys(ball, c) ==> {
            &&& bricks_hit(colliders.push(c), ball) == bricks_hit(colliders, ball)
            &&& survivors(colliders.push(c), ball) == survivors(colliders, ball).push(c)
        },
{
    assert(colliders.push(c).drop_last() =~= colliders);
    assert(colliders.push(c).last() == c);
}

/// Tests one collider against the ball and says what the hit does: the new
/// velocity, whether a brick was struck, and whether a fail zone was.
pub fn strike(ball: &Body, velocity: Vec2, c: &Collider) -> (r: (Vec2, bool, bool))
    requires
        reversible(velocity),
    ensures
        r.0 == bounce(*ball, velocity, *c),
        r.1 == destroys(*ball, *c),
        r.2 == loses(*ball, *c),
        reversible(r.0),
{
    match collide(ball, &c.body) {
        None => (velocity, false, false),
        Some(Collision::Inside) => (velocity, false, false),
        Some(face) => match c.kind {
            ColliderKind::FailZone => (velocity, false, true),
            ColliderKind::Brick => (reflect(velocity, face), true, false),
            _ => (reflect(velocity, face), false, false),
        },
    }
}

/// Resolves one tick of collisions. The ball, which has already moved, is
/// tested against every collider in order. A struck brick scores one point
/// and is removed at once, so no brick is struck twice. A struck fail zone
/// is reported, once however many were struck, and reflects nothing. Every
/// other struck collider reflects the ball where its velocity points into
/// the struck face. The ball's body is not moved.
pub fn check_for_collisions(
    game_data: &mut GameData,
    ball: &mut Ball,
    colliders: &mut Vec<Collider>,
) -> (game_over: bool)
    requires
        reversible(old(ball).velocity),
        old(game_data).score + old(colliders)@.len() <= u64::MAX,
    ensures
        final(ball).body == old(ball).body,
        final(ball).velocity == velocity_after(
            old(colliders)@,
            old(ball).body,
            old(ball).velocity,
        ),
        reversible(final(ball).velocity),
        final(colliders)@ == survivors(old(colliders)@, old(ball).body),
        final(game_data).score == old(game_data).score + bricks_hit(
            old(colliders)@,
            old(ball).body,
        ),
        final(game_data).score + final(colliders)@.len() == old(game_data).score + old(
            colliders,
        )@.len(),
        game_over == fail_zone_hit(old(colliders)@, old(ball).body),
{
    let ghost all = colliders@;
    let ghost start = ball.velocity;
    let body = ball.body;
    let mut velocity = ball.velocity;
    let mut score = game_data.score;
    let mut kept: Vec<Collider> = Vec::new();
    let mut game_over = false;
    let n = colliders.len();
    let mut i: usize = 0;
    while i < n
        invariant
            0 <= i <= n,
            n == all.len(),
            colliders@ == all,
            velocity == velocity_after(all.take(i as int), body, start),
            reversible(velocity),
            kept@ == survivors(all.take(i as int), body),
            score == old(game_data).score + bricks_hit(all.take(i as int), body),
            kept@.len() + bricks_hit(all.take(i as int), body) == i,
            old(game_data).score + n <= u64::MAX,
            game_over == fail_zone_hit(all.take(i as int), body),
        decreases n - i,
    {
        let c = colliders[i];
        let (bounced, brick, lost) = strike(&body, velocity, &c);
        proof {
            let before = all.take(i as int);
            let now = all.take(i + 1);
            assert(now.drop_last() =~= before);
            assert(now.last() == c);
            if fail_zone_hit(now, body) {
                let k = choose|k: int| 0 <= k < now.len() && loses(body, #[trigger] now[k]);
                if k < i {
                    assert(loses(body, before[k]));
                }
            }
            if fail_zone_hit(before, body) {
                let k = choose|k: int| 0 <= k < before.len() && loses(body, #[trigger] before[k]);
                assert(loses(body, now[k]));
            }
            if lost {
                assert(loses(body, now[i as int]));
            }
        }
        velocity = bounced;
        if brick {
            score = score + 1;
        } else {
            kept.push(c);
        }
        if lost {
            game_over = true;
        }
        i = i + 1;
    }
    proof {
        assert(all.take(n as int) =~= all);
    }
    ball.velocity = velocity;
    game_data.score = score;
    *colliders = kept;
    game_over
}

} // verus!
