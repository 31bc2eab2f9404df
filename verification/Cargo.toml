[package]
name = "audio_upload_service"
version = "0.1.0"
edition = "2021"
publish = false

[dependencies]
dashmap = "=6.2.1"
uuid = { version = "=1.29.0", features = ["v4", "serde"] }
serde = { version = "=1.0.229", features = ["derive"] }
serde_json = "=1.0.154"
chrono = "=0.4.45"
tempfile = "=3.27.0"
tokio = { version = "=1.54.1", features = ["full"] }
tokio-stream = "=0.1.19"
axum = { version = "=0.7.9", features = ["multipart"] }
tower-http = { version = "=0.5.2", features = ["cors"] }
async-stream = "=0.3.6"
async-trait = "=0.1.92"
futures-core = "=0.3.34"
anyhow = "=1.0.104"
tracing = "=0.1.44"
tracing-subscriber = "=0.3.23"
rdkafka = "=0.36.2"
aws-sdk-s3 = "=1.152.0"
