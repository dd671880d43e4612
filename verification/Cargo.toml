[package]
name = "control_plane_worker"
version = "0.1.0"
edition = "2021"
publish = false

[dependencies]
futures-channel = "0.3"
futures-util = "0.3"
jsonwebtoken = "9"
serde = { version = "1", features = ["derive"] }
serde_json = { version = "1", features = ["raw_value"] }
wasm-bindgen-futures = "0.4"
worker = "*"
