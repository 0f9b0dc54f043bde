[package]
name = "tinymist-package"
version = "0.1.0"
edition = "2021"
publish = false

[dependencies]
dirs = "*"
ehttp = "*"
flate2 = "*"
log = "*"
parking_lot = "*"
pollster = "*"
reqwest = { version = "0.12", default-features = false, features = ["blocking", "rustls-tls"] }
serde = { version = "*", features = ["derive"] }
serde_json = "*"
tar = "*"
typst-syntax = "*"
wasm-bindgen = "*"
