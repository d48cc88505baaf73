[package]
name = "mansion"
version = "0.1.0"
edition = "2021"
publish = false

[dependencies]
chacha20poly1305 = "0.10"
x25519-dalek = "2"
rsa = "0.9"
rand = "0.8"
bincode = "1"
serde = { version = "1", features = ["derive"] }
tokio = { version = "1", features = ["full"] }
flume = "0.11"
async-trait = "0.1"
