[package]
name = "pwhash"
version = "0.1.0"
edition = "2021"
publish = false

[dependencies]
argon2 = "=0.5.3"
bcrypt = "=0.19.3"
password-hash = { version = "=0.5.0", features = ["getrandom"] }
serde = { version = "1", features = ["derive"] }
serde_json = "1"
worker = "*"
