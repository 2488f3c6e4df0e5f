[package]
name = "mail_core"
version = "0.1.0"
edition = "2021"
publish = false

[dependencies]
aes-gcm-siv = "0.11"
ahash = "0.8"
arc-swap = "1"
blake3 = { version = "1", default-features = false, features = ["pure", "std"] }
futures = "0.3"
hyper = "1"
mail-builder = "0.3"
mail-parser = "0.9"
parking_lot = "0.12"
rand = "0.8"
reqwest = { version = "0.12", default-features = false, features = ["stream"] }
tokio = { version = "1", features = ["sync"] }
