[package]
name = "nexus"
version = "0.1.0"
edition = "2021"
publish = false

[dependencies]
neo4rs = "=0.8.0"
pubky-app-specs = "=0.8.1"
pubky = "=0.10.0"
serde = { version = "1", features = ["derive"] }
serde_json = "1"
opentelemetry = "=0.33.1"
chrono = "0.4"
async-trait = "0.1"
futures = "0.3"
tokio = { version = "1", features = ["rt", "sync", "time", "macros", "fs"] }
axum = "=0.8.9"
tower-http = { version = "0.6", features = ["cors", "compression-gzip", "limit", "timeout"] }
thiserror = "2"
tracing = "0.1"
