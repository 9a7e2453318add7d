[package]
name = "rensen"
version = "0.1.0"
edition = "2021"
publish = false

[dependencies]
chrono = "*"
cron = "*"
env_logger = "*"
flate2 = "*"
serde = { version = "*", features = ["derive"] }
serde_json = "*"
sha3 = "*"
ssh2 = "*"
tar = "*"
tokio = { version = "*", features = ["rt-multi-thread", "macros", "time", "sync"] }
