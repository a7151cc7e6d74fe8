[package]
name = "psect"
version = "0.1.0"
edition = "2021"
publish = false

[dependencies]
chrono = "0.4"
clap = { version = "4", features = ["derive"] }
ctrlc = "3"
env_logger = "0.11"
git2 = { version = "0.20", default-features = false }
log = "0.4"
rand = "0.9"
serde = { version = "1", features = ["derive"] }
thiserror = "2"
toml = "0.8"
