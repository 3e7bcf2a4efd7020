[package]
name = "enpass"
version = "0.1.0"
edition = "2021"
publish = false

[dependencies]
aes-gcm = "0.10"
anyhow = "1"
base32 = "0.5"
clap = { version = "4", features = ["derive"] }
json = "0.12"
memmap = "0.7"
pbkdf2 = "0.12"
rpassword = "7"
rusqlite = { version = "*", features = ["bundled", "load_extension"] }
sha2 = "0.10"
totp_rfc6238 = "*"

[dev-dependencies]
hex = "0.4"
