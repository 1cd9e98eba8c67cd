[package]
name = "shared_sdk"
version = "0.1.0"
edition = "2021"
publish = false

[dependencies]
borsh = "1"
js-sys = "0.3"
wasm-bindgen = "0.2"
