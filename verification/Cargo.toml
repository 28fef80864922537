[package]
name = "user_accounts"
version = "0.1.0"
edition = "2021"
publish = false

[dependencies]
argon2 = "=0.6.0"
jsonwebtoken = { version = "=11.1.0", features = ["rust_crypto"] }
validator = "=0.21.0"
serde_json = "*"
uuid = { version = "=1.27.0", features = ["v4"] }
actix-web = "=4.15.0"
serde = { version = "=1.0.229", features = ["derive"] }
chrono = "=0.4.45"
dotenv = "=0.15.0"
