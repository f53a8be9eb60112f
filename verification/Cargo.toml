[package]
name = "filite"
version = "0.1.0"
edition = "2021"
publish = false

[dependencies]
base64 = "0.12"
blake3 = "0.3"
chrono = "0.4"
rand = "0.7"
rust-argon2 = "0.8"
serde = { version = "1.0", features = ["derive"] }
serde_json = "1.0"
