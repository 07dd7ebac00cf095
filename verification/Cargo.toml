[package]
name = "opensource_website"
version = "0.1.0"
edition = "2021"
publish = false

[dependencies]
seed = { version = "=0.10.0", features = ["routing"] }
serde = { version = "1", features = ["derive"] }
serde_json = "1"
wasm-bindgen = "0.2"
wasm-bindgen-futures = "0.4"
web-sys = { version = "0.3", features = ["HtmlInputElement", "Window", "Response", "Headers"] }
