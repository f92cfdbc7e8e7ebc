[package]
name = "secure-chat"
version = "0.1.0"
edition = "2021"
publish = false

[dependencies]
bincode = "=1.3.3"
hex = "=0.4.3"
rand = "=0.8.8"
serde = "=1.0.229"
x25519-dalek = { version = "=2.0.1", features = ["static_secrets"] }
