[package]
name = "marketplace"
version = "0.1.0"
edition = "2021"
publish = false

[dependencies]
parity-scale-codec = { version = "1.0", features = ["derive"] }
sr-std = "1.0.1"
