[package]
name = "screenshot_ocr"
version = "0.1.0"
edition = "2021"
publish = false

[dependencies]
anyhow = "*"
base64 = "*"
image = "*"
notify-rust = "*"
serde = { version = "*", features = ["derive"] }
serde_json = "*"
toml = "*"
ureq = "*"
