[package]
name = "arena_sim"
version = "0.1.0"
edition = "2021"
publish = false

[dependencies]
rand = "=0.8.8"
bevy = { version = "=0.7.0", default-features = false, features = ["bevy_winit", "render", "x11"] }
bevy_prototype_lyon = "=0.5.0"
# bevy's derive crates parse whole items; this keeps syn's `full` feature on for them
darling = "=0.13.4"
