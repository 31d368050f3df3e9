//! The rules of a ball-and-paddle arcade game: arena geometry, motion,
//! collision resolution, brick layout and the stack of application states.
//!
//! Lengths are whole world units, a thousand to the pixel. Times are whole
//! microseconds and speeds are units per second. The origin is the centre of
//! the viewport, `x` grows to the right and `y` grows upwards.

pub mod ball;
pub mod bricks;
pub mod collision;
pub mod components;
pub mod game;
pub mod math;
pub mod menu;
pub mod paddle;
pub mod state;
pub mod walls;
