[package]
name = "distributed_wasm_runtime"
version = "0.1.0"
edition = "2021"
publish = false

[dependencies]
anyhow = "=1.0.104"
clap = { version = "=4.6.7", features = ["derive"] }
rand = "=0.8.8"
reqwest = { version = "=0.11.27", default-features = false, features = ["json"] }
serde = { version = "=1.0.229", features = ["derive"] }
substring = "=1.4.5"
tokio = { version = "=1.54.1", features = ["full"] }
warp = "=0.3.7"
wasi-common = "24"
wasmtime = { version = "24", default-features = false, features = ["cranelift", "runtime"] }
wasmtime-wasi = "24"
