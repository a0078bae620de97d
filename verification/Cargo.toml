[package]
name = "cargo_rapp"
version = "0.1.0"
edition = "2021"
publish = false

[dependencies]
cargo_metadata = "*"
clap = { version = "*", features = ["derive"] }
env_logger = "*"
log = "*"

[dev-dependencies]
serde_json = "*"
