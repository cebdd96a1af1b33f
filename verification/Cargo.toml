[package]
name = "sr25519"
version = "0.1.0"
edition = "2021"
publish = false

[dependencies]
sp-core = { version = "=43.0.0", features = ["serde"] }
sp-crypto-hashing = "=0.1.0"
rand = "=0.8.8"
serde = { version = "=1.0.229", features = ["derive"] }

[dev-dependencies]
parity-scale-codec = "=3.7.5"
