[package]
name = "kailo_core"
version = "0.1.0"
edition = "2021"
publish = false

[dependencies]
uuid = { version = "=1.29.0", features = ["v4", "v5", "serde"] }
sha2 = "=0.10.9"
hex = "=0.4.3"
getrandom = "=0.3.4"
serde = { version = "=1.0.229", features = ["derive"] }
serde_json = "=1.0.154"
url = "=2.5.8"
nostr = { version = "=0.45.6", features = ["os-rng"] }
base64 = "=0.22.1"
