[package]
name = "sarzak_cli"
version = "0.1.0"
edition = "2021"
publish = false

[dependencies]
anyhow = "=1.0.104"
clap = { version = "=4.6.7", features = ["derive"] }
heck = "=0.5.0"
log = "=0.4.34"
pretty_env_logger = "=0.5.0"
serde = { version = "=1.0.229", features = ["derive"] }
toml = "=1.1.6"
uuid = { version = "=1.27.0", features = ["v5"] }
