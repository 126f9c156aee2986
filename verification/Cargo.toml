[package]
name = "poly"
version = "0.1.0"
edition = "2021"
publish = false

[dependencies]
maud = "*"
quote = "1"
serde = { version = "1", features = ["derive"] }
serde-wasm-bindgen = "*"
serde_json = "1"
syn = "2"
wasm-bindgen = "0.2"
