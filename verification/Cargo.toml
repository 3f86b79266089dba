[package]
name = "aetherpix"
version = "0.1.0"
edition = "2021"
publish = false

[dependencies]
uuid = { version = "=1.27.0", features = ["v4", "v7"] }
mime_guess2 = "=2.3.1"
image = "=0.25.10"
ravif = { version = "=0.13.0", default-features = false, features = ["threading"] }
rgb = "=0.8.53"
aws-sdk-s3 = "=1.152.0"
tokio = { version = "=1.53.2", features = ["full"] }
tokio-util = { version = "=0.7.19", features = ["io"] }
axum = { version = "=0.8.9", features = ["multipart"] }
futures = "=0.3.34"
serde = { version = "=1.0.229", features = ["derive"] }
serde_json = "=1.0.151"
tracing = "=0.1.44"
