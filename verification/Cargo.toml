[package]
name = "cbor_codec"
version = "0.1.0"
edition = "2021"
publish = false

[dependencies]
bytes = "1"
serde = "1"
serde_cbor = "0.11"
tokio-util = { version = "0.7", features = ["codec"] }
