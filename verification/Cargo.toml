[package]
name = "rust_service"
version = "0.1.0"
edition = "2021"
publish = false

[dependencies]
axum = "*"
tokio = { version = "*", features = ["rt-multi-thread", "macros", "net"] }
tower-http = { version = "*", features = ["cors", "trace"] }
serde_json = "*"
tracing = "*"
tracing-subscriber = { version = "*", features = ["env-filter", "fmt"] }
opentelemetry = "*"
opentelemetry_sdk = "*"
opentelemetry-otlp = { version = "*", features = ["grpc-tonic", "trace", "metrics"] }
opentelemetry-semantic-conventions = "*"
tracing-opentelemetry = "*"

[dev-dependencies]
tower = { version = "*", features = ["util"] }
http = "*"
