[package]
name = "hyperborealib"
version = "0.1.0"
edition = "2021"
publish = false

[dependencies]
base64 = "0.22"
aes-gcm = "0.10"
chacha20poly1305 = "0.10"
flate2 = "1"
serde_json = "1"
moka = { version = "0.12", features = ["future"] }
async-trait = "0.1"
thiserror = "1"
