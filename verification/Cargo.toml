[package]
name = "cipher_host"
version = "0.1.0"
edition = "2021"
publish = false

[dependencies]
axum = "=0.8.9"
serde = { version = "=1.0.229", features = ["derive"] }
tokio = { version = "=1.54.1", features = ["macros", "rt-multi-thread", "signal", "net"] }
wasmtime = { version = "=38.0.4", default-features = false, features = ["runtime", "std", "cranelift", "component-model", "async", "component-model-async"] }
wasmtime-wasi = "=38.0.4"
wit-bindgen = "=0.63.0"

[dev-dependencies]
wat = "*"
