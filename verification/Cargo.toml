[package]
name = "sqlite_worker_core"
version = "0.1.0"
edition = "2021"
publish = false

[dependencies]
uuid = { version = "=1.27.0", features = ["v4", "js"] }
wasm-bindgen = "=0.2.129"
js-sys = "=0.3.106"
web-sys = { version = "=0.3.106", features = ["BroadcastChannel", "MessageEvent"] }
wasm-bindgen-futures = "=0.4.79"
serde-wasm-bindgen = "=0.6.5"
serde = { version = "=1.0.229", features = ["derive"] }
