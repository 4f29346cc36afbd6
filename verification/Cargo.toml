[package]
name = "lm_proxy"
version = "0.1.0"
edition = "2021"
publish = false

[dependencies]
serde_json = "1"
axum = "*"
tokio = { version = "1", features = ["rt-multi-thread", "macros", "net"] }
reqwest = { version = "*", default-features = false, features = ["stream"] }
futures-util = "0.3"
log = "0.4"
env_logger = "*"
clap = { version = "4", features = ["derive"] }
