[package]
name = "remitano_api"
version = "0.1.0"
edition = "2021"
publish = false

[dependencies]
anyhow = "1"
base64 = "0.13"
hmac = "0.12"
hyperx = "1"
md-5 = "0.10"
serde = "1"
serde_json = "1"
serde_qs = "0.12"
sha1 = "0.10"
reqwest = { version = "0.11", default-features = false, features = ["json"] }
