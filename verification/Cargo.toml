[package]
name = "dubbo_rpc"
version = "0.1.0"
edition = "2021"
publish = false

[dependencies]
anyhow = "1"
axum = "0.6"
dashmap = "5"
futures = "0.3"
hex = "0.4"
hyper = { version = "0.14", features = ["full"] }
once_cell = "1"
serde = { version = "1", features = ["derive"] }
serde_yaml = "0.9"
tokio = { version = "1", features = ["full"] }
tonic = "0.9"
tower = { version = "0.4", features = ["full"] }
tower-http = { version = "0.4", features = ["set-header", "trace"] }
tower-service = "0.3"
tracing = "0.1"
