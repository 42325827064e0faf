[package]
name = "hmac_serialiser"
version = "0.1.0"
edition = "2021"
publish = false

[dependencies]
base64 = "0.22"
hkdf = "0.12"
hmac = "0.12"
sha1 = "0.10"
sha2 = "0.10"
serde = { version = "1.0", features = ["derive"] }
serde_json = "1.0"
chrono = "0.4"

[dev-dependencies]
rand = "0.8"
