[package]
name = "sodex"
version = "0.1.0"
edition = "2021"
publish = false

[dependencies]
alloy = { version = "=2.5.0", default-features = false, features = ["std", "signer-local"] }
alloy-primitives = { version = "=1.7.3", default-features = false, features = ["std"] }
alloy-sol-types = { version = "=1.7.3", default-features = false, features = ["std"] }
rust_decimal = "=1.43.0"
serde = { version = "=1.0.229", features = ["derive"] }
serde_json = "=1.0.154"
