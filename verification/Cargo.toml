[package]
name = "autoguard"
version = "0.1.0"
edition = "2021"
publish = false

[dependencies]
reywen = "*"
mongodb = "2"
serde = { version = "1", features = ["derive"] }
serde_json = "1"
rand = "0.8"
tokio = { version = "1", features = ["full"] }
futures-util = "0.3"
dotenv = "0.15"
