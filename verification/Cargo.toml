[package]
name = "krypt_core"
version = "0.1.0"
edition = "2021"
publish = false

[dependencies]
base64 = "0.13"
chacha20poly1305 = "0.10"
rand = "0.8"
serde = { version = "1", features = ["derive"] }
sodiumoxide = "0.2"
