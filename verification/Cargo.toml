[package]
name = "host_bridge"
version = "0.1.0"
edition = "2021"
publish = false

[dependencies]
anyhow = "=1.0.104"
futures = "=0.3.34"
wasmtime = { version = "=36.0.19", default-features = false, features = ["async", "cranelift", "runtime", "std"] }
