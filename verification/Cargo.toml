[package]
name = "subspace_hub"
version = "0.1.0"
edition = "2021"
publish = false

[dependencies]
argon2 = "0.5"
axum = { version = "0.8", features = ["ws", "multipart"] }
futures-util = "0.3"
jsonwebtoken = "9"
password-hash = { version = "0.5", features = ["getrandom"] }
rusqlite = "*"
serde = { version = "1", features = ["derive"] }
serde_json = "1"
tokio = { version = "1", features = ["full"] }
tower-http = { version = "0.6", features = ["cors", "fs"] }
tracing = "0.1"
tracing-subscriber = { version = "0.3", features = ["env-filter"] }
uuid = { version = "1", features = ["v4", "serde"] }
