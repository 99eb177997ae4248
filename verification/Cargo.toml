[package]
name = "rustrdp"
version = "0.1.0"
edition = "2021"
publish = false

[dependencies]
anyhow = "1"
arboard = { version = "3", default-features = false }
dirs = "6"
egui = { version = "0.35", default-features = false }
ironrdp = { version = "0.16", default-features = false, features = ["connector", "pdu"] }
ironrdp-blocking = "0.9"
ironrdp-cliprdr = "0.6"
ironrdp-connector = "0.9"
ironrdp-core = "0.2"
ironrdp-displaycontrol = "0.7"
ironrdp-dvc = "0.7"
ironrdp-graphics = "0.8"
ironrdp-input = "0.6"
ironrdp-session = "0.10"
serde = { version = "1", features = ["derive"] }
serde_json = "1"
sspi = { version = "0.21", features = ["network_client"] }
tokio-rustls = "0.26"
x509-cert = { version = "0.2", default-features = false, features = ["std"] }
