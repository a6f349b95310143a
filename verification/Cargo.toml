[package]
name = "sui_checkpoint"
version = "0.1.0"
edition = "2021"
publish = false

[dependencies]
base58 = "=0.2.0"
base64 = "=0.13.1"
hex = "=0.4.3"
serde_json = "1.0"
eyre = "0.6"
futures = "0.3"
jsonrpsee = { version = "*", features = ["http-client"] }
tokio = { version = "1", features = ["time"] }
