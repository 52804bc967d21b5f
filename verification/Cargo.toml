[package]
name = "screen_ocr"
version = "0.1.0"
edition = "2021"
publish = false

[dependencies]
image = { version = "=0.25.10", default-features = false, features = ["png"] }
imageproc = { version = "=0.25.1", default-features = false }
global-hotkey = "=0.6.4"
serde = { version = "=1.0.229", features = ["derive"] }
toml = "=0.8.23"
zip = { version = "=2.6.1", default-features = false, features = ["deflate"] }
anyhow = "=1.0.104"
eframe = { version = "=0.31.1", default-features = false, features = ["glow", "default_fonts", "x11"] }
arboard = "=3.7.0"
