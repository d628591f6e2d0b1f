[package]
name = "weapay"
version = "0.1.0"
edition = "2021"
publish = false

[dependencies]
aes = "0.8"
aes-gcm = "0.10"
cbc = "0.1"
openssl = "0.10"
reqwest = "0.12"
serde = { version = "1", features = ["derive"] }
serde_json = "1"
