[package]
name = "water"
version = "0.1.0"
edition = "2021"
publish = false

[dependencies]
anyhow = "1"
cap-std = "2"
clap = { version = "4", features = ["derive"] }
serde = { version = "1", features = ["derive"] }
serde_json = "1"
wasi-common = "14"
wasmtime = "14"
wasmtime-wasi = "14"
