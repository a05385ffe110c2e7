[package]
name = "kubepki"
version = "0.1.0"
edition = "2021"
publish = false

[dependencies]
ipnetwork = "*"
log = "*"

[dev-dependencies]
serde_json = "*"
