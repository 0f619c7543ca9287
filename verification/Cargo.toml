[package]
name = "metools_backend"
version = "0.1.0"
edition = "2021"
publish = false

[dependencies]
argon2 = "=0.6.0"
base64 = "=0.23.1"
chrono = "=0.4.45"
getrandom = "=0.4.3"
jsonwebtoken = { version = "=11.1.0", features = ["rust_crypto"] }
lettre = { version = "=0.11.23", default-features = false, features = ["smtp-transport", "builder"] }
serde_json = "=1.0.151"
uuid = { version = "=1.27.0", features = ["v4"] }
validator = "=0.21.0"
