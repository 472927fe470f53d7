[package]
name = "blockless_rust_sdk"
version = "0.1.0"
edition = "2021"
publish = false

[dependencies]
wasmtime = "=48.0.7"
tokio = { version = "1", features = ["full"] }
reqwest = "0.13"

[dev-dependencies]
wat = "1"
