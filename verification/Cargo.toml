[package]
name = "hs110_exporter"
version = "0.1.0"
edition = "2021"
publish = false

[dependencies]
chrono = { version = "=0.4.45", features = ["serde"] }
uuid = { version = "=1.29.0", features = ["v4"] }
serde = { version = "=1.0.229", features = ["derive"] }
serde_json = "=1.0.154"
serde_yaml = "=0.9.34"
tokio = { version = "=1.54.1", features = ["macros", "rt-multi-thread"] }
kube = "=3.1.0"
k8s-openapi = { version = "=0.27.1", features = ["latest"] }
gcp-bigquery-client = "=0.28.0"
