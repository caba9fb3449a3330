[package]
name = "mailjet_api"
version = "0.1.0"
edition = "2021"
publish = false

[dependencies]
url-builder = "=0.1.1"
serde_json = { version = "=1.0.154", features = ["arbitrary_precision"] }
serde = { version = "=1.0.229", features = ["derive"] }
curl = "=0.4.51"
