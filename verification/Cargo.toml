[package]
name = "itchat"
version = "0.1.0"
edition = "2021"
publish = false

[dependencies]
rbatis = "*"
rust-argon2 = "*"
validator = "*"
nanoid = "*"
once_cell = "1"
serde = { version = "1", features = ["derive"] }
