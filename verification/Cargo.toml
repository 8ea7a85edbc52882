[package]
name = "platform_validation"
version = "0.1.0"
edition = "2021"
publish = false

[dependencies]
js-sys = "=0.3.107"
prost = { version = "=0.14.4", features = ["derive"] }
serde = { version = "=1.0.229", features = ["derive"] }
serde-wasm-bindgen = "=0.6.5"
wasm-bindgen = "=0.2.130"
