[package]
name = "parachains_runtime"
version = "0.1.0"
edition = "2021"
publish = false

[dependencies]
frame-system = "=49.0.0"
parity-scale-codec = { version = "=3.7.5", features = ["derive"] }
scale-info = { version = "=2.11.6", features = ["derive"] }
