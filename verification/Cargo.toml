[package]
name = "voice_streaming"
version = "0.1.0"
edition = "2021"
publish = false

[dependencies]
dashmap = "=6.2.1"
anyhow = "=1.0.104"
axum = { version = "=0.7.9", features = ["ws"] }
axum-server = { version = "=0.7.3", features = ["tls-rustls"] }
futures = "=0.3.34"
serde = { version = "=1.0.229", features = ["derive"] }
serde_json = "=1.0.154"
tokio = { version = "=1.54.1", features = ["full"] }
tracing = "=0.1.44"
tracing-subscriber = "=0.3.23"
uuid = { version = "=1.29.0", features = ["v4"] }
webrtc = "=0.14.0"
