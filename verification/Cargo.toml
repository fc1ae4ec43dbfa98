[package]
name = "sigbatch"
version = "0.1.0"
edition = "2021"
publish = false

[dependencies]
clap = { version = "*", features = ["derive"] }
ed25519-consensus = "*"
k256 = "*"
rand_core = { version = "*", features = ["os_rng"] }
serde = { version = "*", features = ["derive"] }
