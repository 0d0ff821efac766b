[package]
name = "nft_bridge"
version = "0.1.0"
edition = "2021"
publish = false

[dependencies]
sha2 = "0.10"
ed25519-compact = "2"

[dev-dependencies]
ed25519-dalek = "1"
rand_core = { version = "0.5", features = ["getrandom"] }
