[package]
name = "gvas_save_parser"
version = "0.1.0"
edition = "2021"
publish = false

[dependencies]
nom = "7.1"
serde = { version = "1", features = ["derive"] }
wasm-bindgen = "0.2"
wasm-bindgen-futures = "0.4"
js-sys = "0.3"
web-sys = { version = "0.3", features = ["Blob", "EventTarget", "File", "FileReader", "ProgressEvent"] }
gloo-utils = { version = "*", features = ["serde"] }
console_error_panic_hook = "0.1"
