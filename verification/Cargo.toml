[package]
name = "puzzle_up"
version = "0.1.0"
edition = "2021"
publish = false

[dependencies]
bevy = { version = "0.8", default-features = false, features = ["render", "bevy_asset", "bevy_winit", "png", "x11"] }
bevy_ecs_ldtk = "0.4"
bevy_rapier2d = "0.16"
