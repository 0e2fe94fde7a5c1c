[package]
name = "login-base"
version = "0.1.0"
edition = "2021"
publish = false

[dependencies]
axum = "0.6"
tokio = { version = "1", features = ["macros", "rt-multi-thread"] }
tower-http = { version = "0.4", features = ["cors", "trace", "request-id", "util"] }
tracing = "0.1"
tracing-subscriber = { version = "0.3", features = ["json", "env-filter"] }
tracing-opentelemetry = "0.29"
opentelemetry = "0.28"
opentelemetry_sdk = "0.28"
opentelemetry-otlp = { version = "0.28", features = ["grpc-tonic"] }
serde = { version = "1", features = ["derive"] }
jsonwebtoken = "9"
