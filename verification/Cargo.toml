[package]
name = "paygate"
version = "0.1.0"
edition = "2021"
publish = false

[dependencies]
base64 = "0.22"
candid = "0.10"
ic-cdk = "0.13"
serde = { version = "1", features = ["derive"] }
serde_json = "1"
