[package]
name = "paradise_city"
version = "0.1.0"
edition = "2021"
publish = false

[dependencies]
jubjub = "=0.10.0"
group = "=0.13.0"
blake2-rfc = "=0.2.18"
rand = "=0.8.8"
rand_chacha = "=0.3.1"
zeroize = "=1.9.1"
serde = { version = "=1.0.229", features = ["derive"] }
serde_json = "=1.0.151"
