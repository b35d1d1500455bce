[package]
name = "hotdog"
version = "0.1.0"
edition = "2021"
publish = false

[dependencies]
serde_json = "1"
log = "0.4"
env_logger = "0.11"
once_cell = "1"
thiserror = "1"
reqwest = { version = "0.12", default-features = false, features = ["blocking"] }
