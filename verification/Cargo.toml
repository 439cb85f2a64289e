[package]
name = "netsim"
version = "0.1.0"
edition = "2021"
publish = false

[dependencies]
circular-buffer = "*"
csv = "*"
failure = "*"
rand = "0.8"
serde = { version = "*", features = ["derive"] }
serde_json = "*"
