[package]
name = "perlin_noise"
version = "0.1.0"
edition = "2021"
publish = false

[dependencies]
rand = "0.8"
twox-hash = "1.6"
wasm-bindgen = "0.2"
web-sys = { version = "0.3", features = ["console", "Document", "Element", "HtmlElement", "HtmlInputElement", "MessageEvent", "Window", "Worker"] }
