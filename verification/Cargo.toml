[package]
name = "rust_kernel"
version = "0.1.0"
edition = "2021"
publish = false

[dependencies]
spin = "=0.9.9"
lazy_static = "=1.5.1"
x86_64 = { version = "0.15", default-features = false, features = ["instructions"] }
