[package]
name = "kide"
version = "0.1.0"
edition = "2021"
publish = false

[dependencies]
serde_yaml_ng = "=0.10.0"
serde = { version = "=1.0.229", features = ["derive"] }
serde_json = "=1.0.154"
thiserror = "=1.0.69"
anyhow = "=1.0.104"
tokio = { version = "=1.54.1", features = ["full"] }
chrono = { version = "=0.4.45", features = ["serde"] }
uuid = { version = "=1.29.1", features = ["v4"] }
futures = "=0.3.34"
async-trait = "=0.1.92"
once_cell = "=1.21.4"
kube = { version = "=0.98.0", features = ["client", "runtime", "rustls-tls", "ws"] }
kube-runtime = "=0.98.0"
k8s-openapi = { version = "=0.24.0", features = ["v1_32"] }
