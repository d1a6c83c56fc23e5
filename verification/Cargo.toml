[package]
name = "denwa"
version = "0.1.0"
edition = "2021"
publish = false

[dependencies]
base64 = "0.13"
clap = "2"
env_logger = "0.8"
libpulse-binding = "2"
libpulse-simple-binding = "2"
log = "0.4"
opus = "0.2"
rand = "0.8"
serde = { version = "1", features = ["derive"] }
serde_cbor = "0.11"
