[package]
name = "sremote"
version = "1.1.0"
edition = "2021"
publish = false

[dependencies]
anyhow = "1"
axum = { version = "0.7", features = ["ws"] }
bytes = "1"
dotenvy = "0.15"
futures = "0.3"
futures-util = "0.3"
ironrdp = { version = "0.14", features = ["connector", "session"] }
ironrdp-blocking = "0.8"
ironrdp-connector = "0.8"
ironrdp-graphics = "0.7"
ironrdp-pdu = "0.7"
jsonwebtoken = "9"
rustls = { version = "0.23", default-features = false, features = ["logging", "ring", "std", "tls12"] }
serde = { version = "1", features = ["derive"] }
serde_json = { version = "1", features = ["raw_value"] }
sspi = { version = "0.18", features = ["network_client"] }
tokio = { version = "1", features = ["full"] }
tokio-tungstenite = "0.24"
tower-http = { version = "0.5", features = ["cors"] }
tracing = "0.1"
tracing-subscriber = { version = "0.3", features = ["env-filter"] }
webp = { version = "0.3", default-features = false }
x509-cert = "0.2"
