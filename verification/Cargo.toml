[package]
name = "crucible"
version = "0.1.0"
edition = "2021"
publish = false
rust-version = "1.95"

[dependencies]
wasmtime = "=46.0.3"
wasmtime-wasi = "=46.0.3"
thiserror = "=2.0.21"

[dev-dependencies]
wat = "=1.263.0"
