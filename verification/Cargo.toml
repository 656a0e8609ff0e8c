[package]
name = "torch_timer"
version = "0.1.0"
edition = "2021"
publish = false

[dependencies]
eframe = { version = "0.21", default-features = false, features = ["default_fonts", "glow", "persistence"] }
instant = "0.1"
rodio = { version = "0.17", default-features = false, features = ["wav"] }
serde = { version = "1", features = ["derive"] }
tracing-subscriber = "0.3"
console_error_panic_hook = "0.1"
tracing-wasm = "0.2"
wasm-bindgen-futures = "0.4"
web-sys = { version = "0.3", features = ["HtmlAudioElement", "HtmlMediaElement"] }
