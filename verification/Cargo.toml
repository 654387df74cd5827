[package]
name = "bevy_flycam"
version = "0.1.0"
edition = "2021"
publish = false

[dependencies]
bevy = { version = "=0.16.1", default-features = false, features = ["std", "bevy_window", "bevy_core_pipeline", "bevy_log"] }
