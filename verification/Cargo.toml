[package]
name = "piet_native"
version = "0.1.0"
edition = "2021"
publish = false

[dependencies]
piet = "=0.1.0"
png = "=0.18.1"
core-graphics = { version = "=0.25.0", default-features = false }
core-foundation = { version = "=0.10.1", default-features = false }
core-text = { version = "=22.0.0", default-features = false, features = ["mountainlion"] }
skia-safe = "=0.153.3"
