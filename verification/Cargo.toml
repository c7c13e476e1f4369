[package]
name = "crux_core"
version = "0.1.0"
edition = "2021"
publish = false

[dependencies]
crossbeam-channel = "=0.5.17"
futures = "=0.3.34"
slab = "=0.4.12"
serde = { version = "=1.0.229", features = ["derive"] }
serde_json = "=1.0.154"

[dev-dependencies]
crossbeam-utils = "=0.8.23"
