[package]
name = "imgchat"
version = "0.1.0"
edition = "2021"
publish = false

[dependencies]
base64 = "0.22"
clap = { version = "4", features = ["derive"] }
eyre = "0.6"
serde = "1"
serde_json = "1"
ureq = "2"
