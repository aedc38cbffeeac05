[package]
name = "noiseplayer"
version = "0.1.0"
edition = "2021"
publish = false

[dependencies]
anyhow = "*"
clap = { version = "*", features = ["derive"] }
dirs = "*"
env_logger = "*"
fd-lock = "*"
nix = { version = "*", features = ["process", "signal"] }
rodio = "*"
serde = { version = "*", features = ["derive"] }
toml = "*"
