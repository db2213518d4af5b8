[package]
name = "v3_position"
version = "0.1.0"
edition = "2021"
publish = false

[dependencies]
aperture-lens = "=0.4.1"
base64 = "=0.21.7"
ethers = { version = "=2.0.14", default-features = false }
serde_json = "=1.0.154"
