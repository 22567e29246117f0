[package]
name = "workload_identity"
version = "0.1.0"
edition = "2021"
publish = false

[dependencies]
async-lock = "=3.4.2"
async-trait = "=0.1.92"
azure_core = { version = "=0.21.0", default-features = false }
serde = { version = "=1.0.229", features = ["derive"] }
serde_json = "=1.0.154"
time = "=0.3.55"
tokio = { version = "=1.54.1", features = ["fs", "rt", "sync"] }
url = "=2.5.8"
