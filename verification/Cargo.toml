[package]
name = "webrcon"
version = "0.1.0"
edition = "2021"
publish = false

[dependencies]
url = "*"
tungstenite = "*"
clap = "2"
anyhow = "*"
log = "*"
env_logger = "*"

[dev-dependencies]
serde_json = "*"
