[package]
name = "wsh"
version = "0.1.0"
edition = "2021"
publish = false

[dependencies]
anyhow = "=1.0.104"
avt = "=0.18.0"
axum = { version = "=0.7.9", features = ["ws"] }
bytes = "=1.12.1"
crossterm = "=0.28.1"
futures = "=0.3.34"
parking_lot = "=0.12.5"
portable-pty = "=0.8.1"
serde = { version = "=1.0.229", features = ["derive"] }
thiserror = "=1.0.69"
tokio = { version = "=1.54.1", features = ["full"] }
tokio-stream = { version = "=0.1.19", features = ["sync"] }
tracing = "=0.1.44"
tracing-subscriber = { version = "=0.3.23", features = ["env-filter"] }
