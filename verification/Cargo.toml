[package]
name = "http_pipeline"
version = "0.1.0"
edition = "2021"
publish = false

[dependencies]
ulid = "1"
axum = "0.6"
tokio = { version = "1", features = ["full"] }
tower = { version = "0.4", features = ["full"] }
tower-http = { version = "0.4", features = ["request-id", "trace", "util"] }
tracing = "0.1"
tracing-subscriber = { version = "0.3", features = ["env-filter"] }
serde = { version = "1", features = ["derive"] }
serde_json = "1"
apache-avro = "*"
