[package]
name = "interop_bindings"
version = "0.1.0"
edition = "2021"
publish = false

[dependencies]
proc-macro2 = "=1.0.107"
itertools = "=0.13.0"
anyhow = "=1.0.104"
serde = { version = "1", features = ["derive"] }
serde_json = "1"
