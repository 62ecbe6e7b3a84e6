[package]
name = "hash_store"
version = "0.1.0"
edition = "2021"
publish = false

[dependencies]
serde_json = "1"
tokio = { version = "1", features = ["net", "io-util", "sync", "rt-multi-thread", "macros"] }
