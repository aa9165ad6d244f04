[package]
name = "kv"
version = "0.1.0"
edition = "2021"
publish = false

[dependencies]
hyper = { version = "=1.12.0", default-features = false }
tracing = "=0.1.44"
prost = "0.13"
