[package]
name = "fractal_nft"
version = "0.1.0"
edition = "2021"
publish = false

[dependencies]
image = "0.24"
rand = "0.8"
sha2 = "0.10"
anyhow = "1"
chrono = "0.4"
clap = { version = "4", features = ["derive"] }
indicatif = "0.17"
serde = { version = "1", features = ["derive"] }
serde_json = "1"
