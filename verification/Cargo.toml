[package]
name = "hmi"
version = "0.1.0"
edition = "2021"
publish = false

[dependencies]
anyhow = "1"
embedded-graphics = "0.8"
embedded-graphics-core = "0.4"
embedded-graphics-simulator = { version = "0.7", default-features = false }
embedded-hal = "1"
