[package]
name = "glkaudio"
version = "0.1.0"
edition = "2021"
publish = false

[dependencies]
hound = "3"
symphonia = { version = "0.5", features = ["mp3"] }
wasm-bindgen = "0.2"
