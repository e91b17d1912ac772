[package]
name = "rusty_gb"
version = "0.1.0"
edition = "2021"
publish = false

[dependencies]
cfg-if = "1"
console_error_panic_hook = "0.1"
console_log = "0.2"
env_logger = "0.9"
futures = "0.3"
log = "0.4"
pixels = "0.9"
rand = "0.8"
wasm-bindgen = "0.2"
web-sys = { version = "0.3", features = ["Document", "Element", "HtmlCanvasElement", "Node", "Window"] }
winit = "0.26"
winit_input_helper = "0.12"
