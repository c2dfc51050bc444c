[package]
name = "snake"
version = "0.1.0"
edition = "2021"
publish = false

[dependencies]
rand = "=0.10.3"
bevy = { version = "=0.17.3", default-features = false, features = ["std", "bevy_window", "bevy_winit", "bevy_render", "bevy_core_pipeline", "bevy_sprite", "bevy_sprite_render", "x11"] }
