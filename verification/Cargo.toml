[package]
name = "screencap"
version = "0.1.0"
edition = "2021"
publish = false

[dependencies]
arboard = "3"
image = { version = "0.25", default-features = false, features = ["png", "jpeg"] }
percent-encoding = "2"
serde = { version = "1", features = ["derive"] }
url = "2"
xcap = "*"
