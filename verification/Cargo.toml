[package]
name = "port_forwarder"
version = "0.1.0"
edition = "2021"
publish = false

[dependencies]
anyhow = "1"
base64 = "0.21"
chrono = "0.4"
lazy_static = "1"
log = "0.4"
log4rs = "1"
rand = "0.8"
regex = "1"
rocket = { version = "0.5", features = ["tls", "mtls"] }
serde = { version = "1", features = ["derive"] }
serde_json = "1"
serde_regex = "1"
serde_yaml = "0.9"
tokio = { version = "1", features = ["full"] }
tokio-context = "0.1"
