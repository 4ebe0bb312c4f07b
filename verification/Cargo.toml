[package]
name = "authium"
version = "0.1.0"
edition = "2021"
publish = false

[dependencies]
aes-gcm = "*"
rand = "*"
serde = { version = "*", features = ["derive"] }
serde_json = "*"
