[package]
name = "wasm_host"
version = "0.1.0"
edition = "2021"
publish = false

[dependencies]
anyhow = "1"
tokio = { version = "1", features = ["macros", "rt"] }
wasmtime = { version = "36", default-features = false, features = ["cranelift", "runtime", "std", "wat"] }
