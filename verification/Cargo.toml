[package]
name = "tile_puzzle"
version = "0.1.0"
edition = "2021"
publish = false

[dependencies]
bevy = { version = "=0.8.1", default-features = false, features = ["bevy_asset", "bevy_winit", "bevy_render", "bevy_core_pipeline", "bevy_sprite", "png", "x11"] }
bevy_easings = { version = "=0.8.1", default-features = false, features = ["render", "sprite"] }
