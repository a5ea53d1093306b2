[package]
name = "winatep_client"
version = "0.1.0"
edition = "2021"
publish = false

[dependencies]
async-net = "*"
async-tungstenite = { version = "*", features = ["async-tls"] }
futures-util = "*"
glam = "*"
image = { version = "*", default-features = false }

[dev-dependencies]
serde_json = "*"
