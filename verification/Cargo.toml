[package]
name = "exif-stripper-wasm"
version = "0.1.0"
edition = "2021"
publish = false

[dependencies]
img-parts = "=0.3.3"
kamadak-exif = "=0.6.1"
serde_json = { version = "=1.0.154", features = ["preserve_order"] }
wasm-bindgen = "=0.2.130"
