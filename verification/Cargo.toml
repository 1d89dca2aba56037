[package]
name = "scanner_rs"
version = "0.1.0"
edition = "2021"
publish = false

[dependencies]
anyhow = "*"
clap = { version = "*", features = ["derive"] }
env_logger = "*"
log = "*"
notify = "*"
regex = "*"
rxing = "*"
uuid = { version = "*", features = ["v4"] }
