[package]
name = "auth_2fa"
version = "0.1.0"
edition = "2021"
publish = false

[dependencies]
rand = "=0.8.8"
base32 = "=0.4.0"
totp-rs = "=5.7.2"
uuid = { version = "=1.27.0", features = ["v4"] }
serde = { version = "1", features = ["derive"] }
serde_json = "1"
chrono = { version = "=0.4.45", features = ["serde"] }
tokio = { version = "1", features = ["sync", "macros", "rt-multi-thread"] }
actix-web = "=4.15.0"
actix-cors = "*"
dotenv = "*"
env_logger = "*"
mongodb = "=2.8.2"
diesel = { version = "=2.3.14", features = ["chrono"] }
diesel-async = { version = "=0.9.2", features = ["postgres"] }
