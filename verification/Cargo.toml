[package]
name = "trigger_scheduler"
version = "0.1.0"
edition = "2021"
publish = false

[dependencies]
anyhow = "1"
chrono = "0.4"
cron = "0.12"
futures = "0.3"
log = "0.4"
tokio = { version = "1", features = ["rt"] }
