[package]
name = "rs_shield"
version = "0.1.0"
edition = "2021"
publish = false

[dependencies]
uuid = { version = "=1.29.0", features = ["v4"] }
axum = "=0.7.9"
toml = "=0.8.23"
serde = { version = "=1.0.229", features = ["derive"] }
serde_json = "=1.0.154"
clap = { version = "=4.6.7", features = ["derive"] }
tokio = { version = "=1.54.1", features = ["full"] }
reqwest = { version = "=0.12.28", default-features = false, features = ["json"] }
dirs = "=5.0.1"
rpassword = "=7.5.4"
walkdir = "=2.5.0"
anyhow = "=1.0.104"
tracing = "=0.1.44"
tracing-subscriber = "=0.3.23"
chrono = "=0.4.45"
open = "=5.4.5"
indicatif = "=0.17.11"
async-trait = "=0.1.92"
regex = "1"
