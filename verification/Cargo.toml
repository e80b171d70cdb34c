[package]
name = "obs_cutter"
version = "0.1.0"
edition = "2021"
publish = false

[dependencies]
anyhow = "*"
clap = { version = "*", features = ["derive"] }
colored = "*"
indicatif = "*"
serde = { version = "*", features = ["derive"] }
serde_json = "*"
thiserror = "*"
