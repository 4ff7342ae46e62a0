[package]
name = "syterkit_mctl"
version = "0.1.0"
edition = "2021"
publish = false

[dependencies]
embedded-sdmmc = "0.8.2"
picotoml = "0.1.0"
heapless = { version = "0.8", features = ["serde"] }
serde = { version = "1", features = ["derive"], default-features = false }
