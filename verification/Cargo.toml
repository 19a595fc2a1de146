[package]
name = "peer_discovery"
version = "0.1.0"
edition = "2021"
publish = false

[dependencies]
serde_json = "*"
tokio = { version = "*", default-features = false, features = ["sync", "net", "time", "rt"] }
ureq = { version = "*", default-features = false }
log = "*"
