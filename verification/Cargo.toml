[package]
name = "accounts"
version = "0.1.0"
edition = "2021"
publish = false

[dependencies]
bcrypt = "*"
ulid = "*"
serde = { version = "*", features = ["derive"] }
serde_json = "*"
