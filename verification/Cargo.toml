[package]
name = "brief"
version = "0.1.0"
edition = "2021"
publish = false

[dependencies]
chrono = "*"
dirs = "*"
serde = { version = "*", features = ["derive"] }
serde_json = "*"
cpal = "*"
ruhear = "*"
whisper-rs = "*"
