[package]
name = "dap"
version = "0.1.0"
edition = "2021"
publish = false

[dependencies]
base64 = "=0.22.1"
serde = { version = "=1.0.229", features = ["derive"] }
serde_json = "=1.0.154"
anyhow = "=1.0.104"
serde_yaml = "0.9"
clap = { version = "4", features = ["derive", "env"] }
