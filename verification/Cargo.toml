[package]
name = "counter_ui"
version = "0.1.0"
edition = "2021"
publish = false

[dependencies]
seed = "0.3"
futures = "0.1"
wasm-bindgen = "0.2"
web-sys = { version = "0.3", features = ["console"] }
serde = { version = "1", features = ["derive"] }
serde_json = "1"
console_error_panic_hook = "0.1"
