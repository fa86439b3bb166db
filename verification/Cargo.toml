[package]
name = "oxide_launcher"
version = "0.1.0"
edition = "2021"
publish = false

[dependencies]
serde_json = "1"
anyhow = "1"
curl = "0.4"
clap = "*"
