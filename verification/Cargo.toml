[package]
name = "mewbot"
version = "0.1.0"
edition = "2021"
publish = false

[dependencies]
anyhow = "1"
async-trait = "0.1"
chrono = "0.4"
clap = { version = "4", features = ["derive"] }
dotenv = "0.15"
env_logger = "0.11"
reqwest = { version = "0.11", features = ["json"] }
self-replace = "1"
semver = "1"
serde = { version = "1", features = ["derive"] }
serde_json = "1"
serenity = "0.12"
sha2 = "0.10"
tokio = { version = "1", features = ["full"] }
