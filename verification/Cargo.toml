[package]
name = "miner"
version = "0.1.0"
edition = "2021"
publish = false

[dependencies]
sha2 = "*"
axum = { version = "*", features = ["ws"] }
tokio = { version = "*", features = ["full"] }
tower-http = { version = "*", features = ["cors"] }
serde = { version = "*", features = ["derive"] }
serde_json = "*"
futures-util = "*"

[dev-dependencies]
hex = "*"
