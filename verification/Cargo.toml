[package]
name = "dlc-engine"
version = "0.1.0"
edition = "2021"
publish = false

[dependencies]
ort = { version = "=2.0.0-rc.15", default-features = false, features = ["load-dynamic", "directml"] }
image = { version = "=0.25.10", default-features = false, features = ["jpeg", "png"] }
ndarray = "=0.16.1"
anyhow = "=1.0.104"
axum = { version = "=0.8.9", features = ["multipart", "ws"] }
tokio = { version = "=1.54.1", features = ["rt-multi-thread", "macros", "net", "sync"] }
tower-http = { version = "=0.6.11", features = ["cors"] }
serde = { version = "=1.0.229", features = ["derive"] }
serde_json = "=1.0.154"
tracing = "=0.1.44"
tracing-subscriber = "=0.3.23"
