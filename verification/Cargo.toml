[package]
name = "video_relay"
version = "0.1.0"
edition = "2021"
publish = false

[dependencies]
anyhow = "=1.0.104"
aws-config = "=1.12.0"
aws-sdk-s3 = "=1.152.0"
aws-types = "~1.6"
axum = "=0.7.9"
base64 = "=0.22.1"
bytes = "=1.12.1"
chrono = "=0.4.45"
futures-util = "=0.3.34"
http-body-util = "=0.1.5"
once_cell = "=1.21.4"
reqwest = { version = "=0.12.28", default-features = false, features = ["json", "stream", "rustls-tls"] }
serde = { version = "=1.0.229", features = ["derive"] }
serde_json = "=1.0.154"
thiserror = "=1.0.69"
tokio = { version = "=1.54.1", features = ["full"] }
urlencoding = "=2.1.3"
