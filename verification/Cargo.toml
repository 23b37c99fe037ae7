[package]
name = "ytdlp_api"
version = "0.1.0"
edition = "2021"
publish = false

[dependencies]
anyhow = "*"
axum = "*"
config = { version = "*", default-features = false, features = ["toml"] }
env_logger = "*"
log = "*"
mime_guess = "*"
serde = { version = "*", features = ["derive"] }
thiserror = "*"
tokio = { version = "*", features = ["full"] }
tokio-util = { version = "*", features = ["io"] }
validator = "*"
