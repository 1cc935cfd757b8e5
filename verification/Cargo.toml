[package]
name = "ocr_engine"
version = "0.1.0"
edition = "2021"
publish = false

[dependencies]
image = "=0.25.10"
ocrs = "=0.13.1"
rten = "=0.26.0"
rten-imageproc = "=0.26.0"
rten-tensor = "=0.26.0"
wasm-bindgen = "=0.2.129"
console_error_panic_hook = "=0.1.7"
