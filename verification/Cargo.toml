[package]
name = "zenshot"
version = "0.1.0"
edition = "2021"
publish = false

[dependencies]
dirs = "5"
image = { version = "0.25", default-features = false, features = ["png", "jpeg"] }
url = "2"
serde = { version = "1", features = ["derive"] }
toml = "0.8"
chrono = "0.4"
interprocess = "2"
libc = "0.2"
arboard = "3"
