[package]
name = "engine_builder"
version = "0.1.0"
edition = "2021"
publish = false

[dependencies]
anyhow = "1"
async-trait = "0.1"
chrono = "0.4"
clap = { version = "4", features = ["derive"] }
colored = "2"
crossterm = "*"
env_logger = "*"
futures = "0.3"
gag = "1"
glob = "0.3"
ignore = "0.4"
indicatif = "*"
log = "0.4"
ratatui = "*"
regex = "1"
reqwest = { version = "0.12", default-features = false, features = ["json"] }
serde = { version = "1", features = ["derive"] }
serde_json = "1"
tempfile = "3"
tokio = { version = "1", features = ["full"] }
uuid = { version = "1", features = ["v4"] }
walkdir = "2"
