[package]
name = "openai-realtime-demo"
version = "0.1.0"
edition = "2021"
publish = false

[dependencies]
axum = { version = "0.7", features = ["ws"] }
axum-server = { version = "0.7", features = ["tls-openssl"] }
base64 = "0.22"
bytes = "1"
futures = "0.3"
opus = "0.3"
serde = { version = "1", features = ["derive"] }
serde_json = "1"
tokio = { version = "1", features = ["full"] }
tokio-tungstenite = { version = "0.24", features = ["native-tls"] }
tower-http = { version = "0.6", features = ["fs"] }
webrtc = "0.11"
webrtc-media = "0.8"
