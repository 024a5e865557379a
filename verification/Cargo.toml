[package]
name = "fglog"
version = "0.1.0"
edition = "2021"
publish = false

[dependencies]
serde = { version = "*", features = ["derive"] }
serde_json = "*"
notify = "*"
tokio = { version = "*", features = ["full"] }
temporal_rs = "*"
dotenvy = "*"
tracing = "*"
tracing-subscriber = "*"
