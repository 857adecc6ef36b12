[package]
name = "rustservant"
version = "0.1.0"
edition = "2021"
publish = false

[dependencies]
futures-util = "0.3"
prost = "0.12"
serde = { version = "1", features = ["derive"] }
serde_json = "1"
serenity = "0.12"
tokio = { version = "1", features = ["full"] }
tokio-tungstenite = "0.21"
