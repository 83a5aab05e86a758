[package]
name = "file_service"
version = "0.1.0"
edition = "2021"
publish = false

[dependencies]
anyhow = "1"
async-trait = "0.1"
aws-config = "=1.12.0"
aws-credential-types = "=1.3.1"
aws-sdk-s3 = "=1.152.0"
aws-types = "=1.6.0"
axum = { version = "=0.8.9", features = ["multipart"] }
bytes = "1"
chrono = { version = "0.4", features = ["serde"] }
dotenvy = "0.15"
image = { version = "=0.25.10", default-features = false, features = ["jpeg", "png", "gif"] }
serde = { version = "1", features = ["derive"] }
serde_json = "1"
sha2 = "=0.10.9"
sqlx = { version = "=0.8.6", default-features = false, features = ["runtime-tokio", "postgres", "uuid", "chrono", "derive"] }
thiserror = "1"
tokio = { version = "1", features = ["full"] }
tower-http = { version = "0.6", features = ["cors", "trace"] }
tracing = "0.1"
tracing-subscriber = "0.3"
uuid = { version = "=1.29.0", features = ["v4", "serde"] }
