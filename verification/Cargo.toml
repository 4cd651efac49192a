[package]
name = "music_player"
version = "0.1.0"
edition = "2021"
publish = false

[dependencies]
chrono = "0.4"
rand = "0.8"
rdev = "0.5"
rodio = "0.19"
serde = { version = "1", features = ["derive"] }
serde_json = "1"
