[package]
name = "worldfile"
version = "0.1.0"
edition = "2021"
publish = false

[dependencies]
serde = { version = "*", features = ["derive"] }
wasm-bindgen = "*"
serde-wasm-bindgen = "*"
web-sys = { version = "*", features = ["CanvasRenderingContext2d", "HtmlCanvasElement"] }
