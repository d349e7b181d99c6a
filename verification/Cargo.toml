[package]
name = "game_server"
version = "0.1.0"
edition = "2021"
publish = false

[dependencies]
anyhow = "=1.0.104"
bincode = { version = "=2.0.1", features = ["serde"] }
chrono = "=0.4.45"
futures-util = { version = "=0.3.34", features = ["sink"] }
jsonwebtoken = { version = "=10.4.0", default-features = false, features = ["rust_crypto"] }
rand = "=0.9.5"
serde = { version = "=1.0.229", features = ["derive"] }
serde_json = { version = "=1.0.154", features = ["preserve_order"] }
tokio = { version = "=1.54.1", features = ["full"] }
tokio-util = { version = "=0.7.20", features = ["codec"] }
