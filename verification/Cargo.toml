[package]
name = "demo"
version = "0.1.0"
edition = "2021"
publish = false

[dependencies]
rand = "0.9"
bevy = { version = "0.15", default-features = false, features = ["bevy_sprite", "bevy_ui", "bevy_text", "bevy_state", "bevy_dev_tools"] }
bevy_rapier2d = { version = "0.28", default-features = false, features = ["dim2"] }
