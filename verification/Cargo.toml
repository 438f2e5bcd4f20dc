[package]
name = "siri"
version = "0.1.0"
edition = "2021"
publish = false

[dependencies]
argon2 = { version = "0.5", features = ["std"] }
rusqlite = { version = "*" }
rpassword = { version = "*" }
