[package]
name = "breakout"
version = "0.1.0"
edition = "2021"
publish = false

[dependencies]
bevy = { version = "0.7", default-features = false, features = ["render"] }
rand = "0.8"
