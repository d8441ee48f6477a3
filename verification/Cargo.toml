[package]
name = "pluralsync"
version = "0.1.0"
edition = "2021"
publish = false

[dependencies]
argon2 = "*"
base64 = "*"
rand = "*"
sha2 = "*"
tokio = { version = "*", features = ["rt-multi-thread", "sync", "macros", "time"] }
