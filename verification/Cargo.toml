[package]
name = "farcaster_node"
version = "0.1.0"
edition = "2021"
publish = false

[dependencies]
bitcoin = { version = "=0.28.1", features = ["rand"] }
monero = "=0.17.3"
base58-monero = { version = "=1.0.0", default-features = false }
farcaster_core = "=0.5.1"
uuid = "=1.17.0"
rustc-hex = "=2.1.0"
internet2 = { version = "=0.8.4", default-features = false }
strict_encoding = "=0.8.2"
serde = { version = "=1.0.152", features = ["derive"] }
serde_yaml = "=0.8.26"
