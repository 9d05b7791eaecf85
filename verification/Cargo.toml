[package]
name = "continue_stream"
version = "0.1.0"
edition = "2021"
publish = false

[dependencies]
atomic-waker = "*"
futures = "*"
wasm_safe_mutex = "*"
