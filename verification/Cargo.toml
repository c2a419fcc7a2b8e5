[package]
name = "wasmhost"
version = "0.1.0"
edition = "2021"
rust-version = "1.95"
publish = false

[dependencies]
anyhow = "1"
futures = "0.3"
tokio = { version = "1", features = ["macros", "rt-multi-thread", "time"] }
wasmtime = "=46.0.3"
wasmtime-wasi = "=46.0.3"
