[package]
name = "slippybot"
version = "0.1.0"
edition = "2021"
publish = false

[dependencies]
regex = "1"
cron = "0.15"
chrono = "0.4"
rand = "0.8"
serde = { version = "1", features = ["derive"] }
serde_json = "1"
log = "0.4"
env_logger = "0.11"
slack = "0.25"
