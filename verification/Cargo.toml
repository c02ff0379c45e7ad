[package]
name = "equality_proof"
version = "0.1.0"
edition = "2021"
publish = false

[dependencies]
base64 = "0.22.1"
curve25519-dalek = { version = "4.1.3", features = ["digest", "rand_core"] }
rand = "0.8"
serde = { version = "1", features = ["derive"] }
serde_json = "1"
sha2 = "0.10.9"
