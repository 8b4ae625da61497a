[package]
name = "warden_worker"
version = "0.1.0"
edition = "2021"
publish = false

[dependencies]
axum = { version = "*", default-features = false }
base64 = "*"
chrono = "*"
futures-util = "*"
js-sys = "*"
jwt-compact = "*"
log = "*"
rmpv = "*"
serde = { version = "*", features = ["derive"] }
serde_json = "*"
wasm-bindgen = "*"
wasm-bindgen-futures = "*"
web-sys = { version = "*", features = ["ReadableStream"] }
worker = "*"
