[package]
name = "orbbec_capture"
version = "0.1.0"
edition = "2021"
publish = false

[dependencies]
bytemuck = { version = "1", features = ["derive"] }
orbbec-sdk = "0.1.0"
