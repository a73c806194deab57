[package]
name = "vizreplay"
version = "0.1.0"
edition = "2021"
publish = false

[dependencies]
serde_json = "1"
uuid = { version = "1", features = ["v4"] }
serde = { version = "1", features = ["derive"] }
tokio = { version = "1", features = ["full"] }
warp = "0.3"
futures = "0.3"
clap = { version = "4", features = ["derive"] }
log = "0.4"
pretty_env_logger = "0.5"
open = "5"
anyhow = "1"
