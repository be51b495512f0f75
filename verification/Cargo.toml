[package]
name = "armqr"
version = "0.1.0"
edition = "2021"
publish = false

[dependencies]
askama = "=0.12.1"
base64 = "=0.13.1"
dotenv = "=0.15.0"
rocket = "0.5"
serde = { version = "=1.0.229", features = ["derive"] }
serde_json = "=1.0.154"
uuid = { version = "=1.29.0", features = ["v4", "serde"] }
