[package]
name = "channel_runner"
version = "0.1.0"
edition = "2021"
publish = false

[dependencies]
anyhow = "1"
async-trait = "0.1"
bollard = "0.13"
clap = { version = "4", features = ["derive"] }
futures-util = "0.3"
hyper = { version = "0.14", features = ["full"] }
once_cell = "1"
serde = { version = "1", features = ["derive"] }
serde_json = "1"
sudo = "0.6"
tar = "0.4"
tokio = { version = "1", features = ["full"] }
tokio-tungstenite = "0.20"
toml = "0.7"
tracing = "0.1"
tracing-subscriber = "0.3"
