[package]
name = "kitties"
version = "0.1.0"
edition = "2021"
publish = false

[dependencies]
parity-scale-codec = "=3.7.5"
sp-io = "35"
sp-runtime = "=36.0.0"
serde = { version = "=1.0.229", features = ["derive"] }
