[package]
name = "frustal"
version = "0.1.0"
edition = "2021"
publish = false

[dependencies]
color_processing = "*"
num-complex = "*"
wasm-bindgen = "0.2"
console_error_panic_hook = "0.1"
