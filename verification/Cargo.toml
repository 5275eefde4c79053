[package]
name = "snake_sim"
version = "0.1.0"
edition = "2021"
publish = false

[dependencies]
bevy = { version = "0.6", default-features = false, features = ["render", "bevy_winit", "x11"] }
rand = "0.7"
