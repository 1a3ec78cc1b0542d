[package]
name = "messaging_api"
version = "0.1.0"
edition = "2021"
publish = false

[dependencies]
hmac = "=0.13.0"
sha2 = "=0.11.0"
base64 = "=0.23.1"
reqwest = { version = "=0.13.5", default-features = false, features = ["blocking"] }
