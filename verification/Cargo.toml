[package]
name = "retrovert-player"
version = "0.1.0"
edition = "2021"
publish = false

[dependencies]
cpal = "0.15"
env_logger = "0.11"
log = "0.4"
serde = { version = "1", features = ["derive"] }
serde_json = "1"
tar = "0.4"
thiserror = "2"
zstd = "0.13"
