[package]
name = "kterm"
version = "0.1.0"
edition = "2021"
publish = false

[dependencies]
anyhow = "=1.0.104"
crossterm = { version = "=0.28.1", features = ["event-stream"] }
futures = "=0.3.34"
k8s-openapi = { version = "=0.25.0", features = ["latest"] }
kube = { version = "=1.1.0", features = ["client", "runtime"] }
ratatui = "=0.29.0"
serde_json = "=1.0.151"
serde_yaml = "=0.9.34"
tempfile = "=3.27.0"
tokio = { version = "=1.53.2", features = ["full"] }
