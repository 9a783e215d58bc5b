[package]
name = "orchestration"
version = "0.1.0"
edition = "2021"
publish = false

[dependencies]
sha2 = "0.10"
zstd = "0.13"
serde = { version = "1", features = ["derive"] }
serde_json = "1"
serde_cbor = "0.11"
