[package]
name = "armature-payments"
version = "0.3.1"
edition = "2021"
publish = false

[dependencies]
async-trait = "0.1"
base64 = "*"
chrono = { version = "0.4", features = ["serde"] }
hex = "0.4"
hmac = "*"
quick-xml = "0.37"
reqwest = { version = "0.12", default-features = false, features = ["json", "rustls-tls"] }
rust_decimal = "1"
secrecy = "0.10"
serde = { version = "1", features = ["derive"] }
serde_json = { version = "1", features = ["raw_value"] }
sha1 = "*"
sha2 = "*"
thiserror = "2"
tokio = { version = "1", features = ["sync", "time"] }
uuid = { version = "1", features = ["v4"] }
