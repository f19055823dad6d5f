[package]
name = "ingestor"
version = "0.1.0"
edition = "2021"
publish = false

[dependencies]
sha2 = "0.10"
hex = "0.4"
url = "2"
chrono = "0.4"
axum = { version = "0.8", default-features = false, features = ["json"] }
opentelemetry = "0.29"
opentelemetry_sdk = "0.29"
opentelemetry-otlp = { version = "0.29", default-features = false, features = ["http-proto", "trace", "logs", "metrics"] }
opentelemetry-http = "0.29"
serde = { version = "1", features = ["derive"] }
serde_json = "1"
worker = { version = "*", features = ["http", "axum"] }
tower-service = "0.3"
async-trait = "0.1"
standard-error = "*"
