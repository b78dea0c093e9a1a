[package]
name = "discord_recorder"
version = "0.1.0"
edition = "2021"
publish = false

[dependencies]
anyhow = "1"
chrono = "0.4"
crossbeam = "0.8"
dirs = "*"
image = { version = "*", default-features = false }
log = "0.4"
serde = { version = "1", features = ["derive"] }
serde_json = "1"
