[package]
name = "cyd"
version = "0.1.0"
edition = "2021"
publish = false

[dependencies]
serde_json = { version = "=1.0.151", features = ["preserve_order"] }
toml = "=1.1.6"
serde_yaml = "=0.9.34"
clap = { version = "=4.6.7", features = ["env"] }
