[package]
name = "sentio"
version = "0.1.0"
edition = "2021"
publish = false

[dependencies]
axum = "0.8"
base64 = "0.22"
bytes = "1"
chrono = "0.4"
governor = "*"
hex = "0.4"
serde = { version = "1", features = ["derive"] }
serde_json = "1"
sha2 = "0.10"
tokio = { version = "1", features = ["net", "time", "io-util"] }
tokio-rustls = { version = "0.26", default-features = false, features = ["logging", "tls12"] }
tracing = "0.1"
utoipa = "5"
uuid = "1"
