[package]
name = "discord_gateway"
version = "0.1.0"
edition = "2021"
publish = false

[dependencies]
serde_json = "1"
async-std = "1"
async-tungstenite = { version = "*", features = ["async-std-runtime"] }
futures-util = "0.3"
