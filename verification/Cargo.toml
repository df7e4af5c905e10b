[package]
name = "envcrypt"
version = "0.1.0"
edition = "2021"
publish = false

[dependencies]
aes = "0.8"
anyhow = "1"
base64 = "0.22"
cbc = "0.1"
clap = { version = "4", features = ["derive"] }
hmac = "0.12"
pbkdf2 = "0.12"
rand = "0.8"
rpassword = "7"
sha2 = "0.10"
subtle = "2"
zeroize = "1"
