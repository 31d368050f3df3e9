use breakout::ball::{
    advance, apply_velocity, launch_velocity, render_ball, spawn_ball, try_advance, Ball,
};
use breakout::components::Body;
use breakout::math::{isqrt, Vec2};
use breakout::paddle::{
    adjust_speed, handle_paddle_move, move_paddle, paddle_direction, render_paddle,
};
use breakout::walls::Viewport;

#[test]
fn square_roots_round_down() {
    assert_eq!(isqrt(0), 0);
    assert_eq!(isqrt(1), 1);
    assert_eq!(isqrt(3), 1);
    assert_eq!(isqrt(4), 2);
    assert_eq!(isqrt(80_000_000_000), 282_842);
    assert_eq!(isqrt(u64::MAX), u32::MAX);
}

#[test]
fn square_roots_bracket_their_argument() {
    for n in [2u64, 99, 100, 101, 1 << 40, (1 << 40) + 12_345, u64::MAX - 1] {
        let r = isqrt(n) as u128;
        assert!(r * r <= n as u128);
        assert!((r + 1) * (r + 1) > n as u128);
    }
}

#[test]
fn a_launch_along_the_diagonal() {
    let v = launch_velocity(500, -500, 400_000);
    assert_eq!(v, Vec2 { x: 282_842, y: -282_842 });
}

#[test]
fn a_launch_depends_on_the_direction_only() {
    assert_eq!(launch_velocity(1, -1, 400_000), launch_velocity(500, -500, 400_000));
    assert_eq!(launch_velocity(3, 4, 1_000), Vec2 { x: 600, y: 800 });
    assert_eq!(launch_velocity(-30, -40, 1_000), Vec2 { x: -600, y: -800 });
}

#[test]
fn a_launch_along_an_axis_has_the_full_speed() {
    assert_eq!(launch_velocity(0, -7, 165_000), Vec2 { x: 0, y: -165_000 });
    assert_eq!(launch_velocity(9, 0, 165_000), Vec2 { x: 165_000, y: 0 });
    assert_eq!(
        launch_velocity(i32::MIN, 0, u32::MAX),
        Vec2 { x: -(u32::MAX as i64), y: 0 }
    );
}

#[test]
fn a_launch_is_never_faster_than_the_speed() {
    for (dx, dy) in [(1, 1), (-599, -100), (599, -699), (7, -13), (i32::MAX, i32::MIN)] {
        let v = launch_velocity(dx, dy, 165_000);
        let len2 = (v.x as i128) * (v.x as i128) + (v.y as i128) * (v.y as i128);
        assert!(len2 <= 165_000i128 * 165_000);
        assert!(len2 >= 164_998i128 * 164_998);
    }
}

#[test]
fn the_ball_after_one_sixtieth_of_a_second() {
    let velocity = launch_velocity(500, -500, 400_000);
    let moved = advance(Vec2 { x: 0, y: -50_000 }, velocity, 16_667);
    assert_eq!(moved, Vec2 { x: 4_714, y: -54_714 });
    let x_px = moved.x as f64 / 1000.0;
    let y_px = moved.y as f64 / 1000.0;
    assert!((x_px - 4.71).abs() < 0.01);
    assert!((y_px + 54.71).abs() < 0.01);
}

#[test]
fn a_move_rounds_toward_zero_on_both_sides() {
    let moved = advance(Vec2 { x: -5, y: 5 }, Vec2 { x: -1_500_000, y: 1_500_000 }, 1);
    assert_eq!(moved, Vec2 { x: -6, y: 6 });
    let still = advance(Vec2 { x: -5, y: 5 }, Vec2 { x: -999_999, y: 999_999 }, 1);
    assert_eq!(still, Vec2 { x: -5, y: 5 });
}

#[test]
fn a_move_of_no_time_or_no_speed_moves_nothing() {
    let at = Vec2 { x: 12, y: -34 };
    assert_eq!(advance(at, Vec2 { x: 400_000, y: -400_000 }, 0), at);
    assert_eq!(advance(at, Vec2 { x: 0, y: 0 }, 1_000_000), at);
}

#[test]
fn a_move_is_not_clamped() {
    let moved = advance(Vec2 { x: 0, y: 0 }, Vec2 { x: 1_000_000_000, y: 0 }, 3_600_000_000);
    assert_eq!(moved, Vec2 { x: 3_600_000_000_000, y: 0 });
}

#[test]
fn a_move_out_of_the_coordinate_range_is_refused() {
    let edge = Vec2 { x: i64::MAX, y: 0 };
    assert_eq!(try_advance(edge, Vec2 { x: 1_000_000, y: 0 }, 1), None);
    assert_eq!(
        try_advance(edge, Vec2 { x: 999_999, y: 0 }, 1),
        Some(Vec2 { x: i64::MAX, y: 0 })
    );
    assert_eq!(try_advance(Vec2 { x: i64::MIN, y: 0 }, Vec2 { x: -1_000_000, y: 0 }, 1), None);
    assert_eq!(
        try_advance(Vec2 { x: 0, y: 0 }, Vec2 { x: i64::MIN, y: i64::MAX }, u64::MAX),
        None
    );
}

#[test]
fn apply_velocity_moves_the_body_only() {
    let mut ball = Ball {
        body: Body { position: Vec2 { x: 0, y: -50_000 }, size: Vec2 { x: 30_000, y: 30_000 } },
        velocity: Vec2 { x: 282_842, y: -282_842 },
    };
    apply_velocity(&mut ball, 16_667);
    assert_eq!(ball.body.position, Vec2 { x: 4_714, y: -54_714 });
    assert_eq!(ball.body.size, Vec2 { x: 30_000, y: 30_000 });
    assert_eq!(ball.velocity, Vec2 { x: 282_842, y: -282_842 });
}

#[test]
fn a_spawned_ball_starts_below_the_centre() {
    let ball = spawn_ball(3, -4);
    assert_eq!(ball.body.position, Vec2 { x: 0, y: -150_000 });
    assert_eq!(ball.body.size, Vec2 { x: 30_000, y: 30_000 });
    assert_eq!(ball.velocity, Vec2 { x: 99_000, y: -132_000 });
}

#[test]
fn a_random_ball_heads_downwards_at_full_speed() {
    for _ in 0..200 {
        let ball = render_ball();
        assert_eq!(ball.body.position, Vec2 { x: 0, y: -150_000 });
        assert!(ball.velocity.y < 0);
        let len2 = (ball.velocity.x as i128).pow(2) + (ball.velocity.y as i128).pow(2);
        assert!(len2 <= 165_000i128 * 165_000);
        assert!(len2 >= 164_998i128 * 164_998);
        // The direction lies in the launch ranges: never steeper sideways
        // than 600 to 100.
        assert!((ball.velocity.x as i128).abs() <= 6 * (ball.velocity.y as i128).abs() + 6);
    }
}

#[test]
fn random_balls_differ() {
    let first = render_ball();
    let mut differs = false;
    for _ in 0..64 {
        if render_ball().velocity != first.velocity {
            differs = true;
        }
    }
    assert!(differs);
}

#[test]
fn opposite_keys_cancel() {
    assert_eq!(paddle_direction(false, false), 0);
    assert_eq!(paddle_direction(true, false), -1);
    assert_eq!(paddle_direction(false, true), 1);
    assert_eq!(paddle_direction(true, true), 0);
}

#[test]
fn the_paddle_moves_by_speed_times_time() {
    assert_eq!(move_paddle(0, 1, 600_000, 16_667, -280_000, 280_000), 10_000);
    assert_eq!(move_paddle(0, -1, 600_000, 16_667, -280_000, 280_000), -10_000);
    assert_eq!(move_paddle(5, 0, 600_000, 16_667, -280_000, 280_000), 5);
    assert_eq!(move_paddle(0, 1, 600_000, 1, -280_000, 280_000), 0);
}

#[test]
fn the_paddle_is_held_to_its_bounds() {
    assert_eq!(move_paddle(275_000, 1, 600_000, 16_667, -280_000, 280_000), 280_000);
    assert_eq!(move_paddle(-275_000, -1, 600_000, 16_667, -280_000, 280_000), -280_000);
    assert_eq!(move_paddle(900_000, 0, 600_000, 16_667, -280_000, 280_000), 280_000);
    assert_eq!(move_paddle(i64::MAX, 1, u32::MAX, u64::MAX, -1, 1), 1);
    assert_eq!(move_paddle(i64::MIN, -1, u32::MAX, u64::MAX, -1, 1), -1);
    assert_eq!(move_paddle(0, 1, 600_000, 16_667, 7, 7), 7);
}

#[test]
fn holding_right_stops_exactly_at_the_right_bound() {
    let viewport = Viewport { width: 800_000, height: 600_000 };
    let mut paddle = render_paddle(&viewport);
    let mut reached = 0;
    for tick in 0..120 {
        handle_paddle_move(&mut paddle, false, true, false, false, 16_667, viewport.width);
        assert!(paddle.body.position.x <= 280_000);
        if paddle.body.position.x == 280_000 && reached == 0 {
            reached = tick + 1;
        }
    }
    assert_eq!(paddle.body.position.x, 280_000);
    assert_eq!(reached, 28);
    assert_eq!(paddle.body.position.y, -225_000);
}

#[test]
fn holding_left_stops_exactly_at_the_left_bound() {
    let viewport = Viewport { width: 800_000, height: 600_000 };
    let mut paddle = render_paddle(&viewport);
    for _ in 0..120 {
        handle_paddle_move(&mut paddle, true, false, false, false, 16_667, viewport.width);
        assert!(paddle.body.position.x >= -280_000);
    }
    assert_eq!(paddle.body.position.x, -280_000);
}

#[test]
fn the_bounds_follow_the_viewport_of_the_tick() {
    let mut paddle = render_paddle(&Viewport { width: 800_000, height: 600_000 });
    paddle.body.position.x = 280_000;
    handle_paddle_move(&mut paddle, false, false, false, false, 16_667, 400_000);
    assert_eq!(paddle.body.position.x, 80_000);
}

#[test]
fn the_speed_keys_step_the_speed() {
    assert_eq!(adjust_speed(600_000, true, false), 650_000);
    assert_eq!(adjust_speed(600_000, false, true), 550_000);
    assert_eq!(adjust_speed(600_000, true, true), 600_000);
    assert_eq!(adjust_speed(600_000, false, false), 600_000);
}

#[test]
fn the_speed_never_goes_below_zero() {
    assert_eq!(adjust_speed(49_999, false, true), 0);
    assert_eq!(adjust_speed(50_000, false, true), 0);
    assert_eq!(adjust_speed(0, false, true), 0);
    assert_eq!(adjust_speed(u32::MAX, true, false), u32::MAX);
    assert_eq!(adjust_speed(u32::MAX - 1, true, true), u32::MAX - 50_000);
}

#[test]
fn a_new_speed_moves_the_paddle_in_the_same_tick() {
    let viewport = Viewport { width: 800_000, height: 600_000 };
    let mut paddle = render_paddle(&viewport);
    handle_paddle_move(&mut paddle, false, true, true, false, 1_000_000, viewport.width);
    assert_eq!(paddle.speed, 650_000);
    assert_eq!(paddle.body.position.x, 280_000);
    let mut slow = render_paddle(&viewport);
    slow.speed = 40_000;
    handle_paddle_move(&mut slow, false, true, false, true, 1_000_000, viewport.width);
    assert_eq!(slow.speed, 0);
    assert_eq!(slow.body.position.x, 0);
}
