[package]
name = "nvim_updater"
version = "0.1.0"
edition = "2021"
publish = false

[dependencies]
anyhow = "1"
bunt = "0.2"
futures-util = "0.3"
indicatif = "0.17"
reqwest = { version = "0.11", features = ["json", "stream"] }
semver = "1"
serde = { version = "1", features = ["derive"] }
tokio = { version = "1", features = ["full"] }
url = "2"
