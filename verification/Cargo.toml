[package]
name = "nebulaterm"
version = "0.1.0"
edition = "2021"
publish = false

[dependencies]
aes-gcm = "*"
argon2 = "*"
base64 = "*"
ssh2 = "*"
portable-pty = "*"
rusqlite = { version = "*", features = ["bundled"] }
parking_lot = "*"
once_cell = "*"
