[package]
name = "case_api"
version = "0.1.0"
edition = "2021"
publish = false

[dependencies]
argon2 = "*"
rand_core = { version = "*", features = ["std"] }
uuid = { version = "*", features = ["v4"] }
chrono = "*"
jsonwebtoken = "*"
serde = { version = "*", features = ["derive"] }
serde_json = "*"
axum = "*"
tokio = { version = "*", features = ["rt-multi-thread", "macros"] }
reqwest = { version = "*", default-features = false }
