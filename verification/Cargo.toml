[package]
name = "credhash"
version = "0.1.0"
edition = "2021"
publish = false

[dependencies]
argon2 = { version = "*", features = ["std"] }
serde = { version = "*", features = ["derive"] }
serde_json = "*"
