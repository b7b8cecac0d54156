[package]
name = "groth16_core"
version = "0.1.0"
edition = "2021"
publish = false

[dependencies]
ark-bn254 = "=0.3.0"
ark-ec = "=0.3.0"
ark-ff = "=0.3.0"
sha3 = "=0.10.9"
serde = { version = "=1.0.229", features = ["derive"] }
serde_json = "=1.0.151"
k256 = "=0.13.4"
rand_core = "=0.6.4"

[dev-dependencies]
num-bigint = "=0.4.8"
