[package]
name = "lidar_scan"
version = "0.1.0"
edition = "2021"
publish = false

[dependencies]
bevy = { version = "=0.15.3", default-features = false, features = ["bevy_color", "bevy_state", "serialize"] }
rand = "0.8"
serde = { version = "1", features = ["derive"] }
