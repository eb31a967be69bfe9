[package]
name = "esplora_api"
version = "0.1.0"
edition = "2021"
publish = false

[dependencies]
curl = { version = "*", default-features = false }
serde = "*"
serde_json = "*"
