[package]
name = "peer_tunnel"
version = "0.1.0"
edition = "2021"
publish = false

[dependencies]
base64 = "0.13"
openssl = "0.10"
rand = "0.8"

[dev-dependencies]
bincode = "1.3"
