[package]
name = "cdumay_json"
version = "0.1.0"
edition = "2021"
publish = false

[dependencies]
cdumay_core = "=0.1.7"
serde_json = "=1.0.154"
serde-value = "=0.7.0"

[dev-dependencies]
serde = "=1.0.229"
