[package]
name = "robinsr"
version = "0.1.0"
edition = "2021"
publish = false

[dependencies]
axum = "*"
base64 = "*"
prost = "*"
serde = { version = "*", features = ["derive"] }
serde_json = "*"
tokio = { version = "*", features = ["full"] }
