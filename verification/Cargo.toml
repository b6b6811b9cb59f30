[package]
name = "simd"
version = "0.1.0"
edition = "2021"

[dependencies]
serde = "=1.0.229"
serde_derive = "=1.0.229"
