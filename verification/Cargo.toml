[package]
name = "specialists"
version = "0.1.0"
edition = "2021"
publish = false

[dependencies]
rig-core = { version = "=0.31.0", default-features = false }
schemars = "=1.2.3"
serde = { version = "=1.0.229", features = ["derive"] }
serde_json = "=1.0.154"
thiserror = "=2.0.21"
