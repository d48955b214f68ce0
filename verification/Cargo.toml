[package]
name = "deploy_tool"
version = "0.1.0"
edition = "2021"
publish = false

[dependencies]
chrono = "0.4"
clap = "4"
indicatif = "0.17"
serde = { version = "1", features = ["derive"] }
ssh2 = "0.9"
toml = "0.8"
walkdir = "2"
zip = { version = "0.6", default-features = false, features = ["deflate"] }
