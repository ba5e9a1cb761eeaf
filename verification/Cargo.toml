[package]
name = "wasm_host"
version = "0.1.0"
edition = "2021"
publish = false

[dependencies]
wasmtime = "=46.0.3"
wasi-common = "=46.0.3"
wat = "=1.262.0"
