[package]
name = "waveshare28_panel"
version = "0.1.0"
edition = "2021"
publish = false

[dependencies]
image = { version = "0.25", default-features = false, features = ["png", "jpeg", "gif", "webp", "bmp"] }
embedded-graphics = "0.8"
embedded-hal = "1"
linux-embedded-hal = "0.4"
gpio-cdev = "0.6"
mipidsi = "*"
memmap2 = "0.9"
if-addrs = "*"
resvg = { version = "*", default-features = false }
serde = { version = "1", features = ["derive"] }
serde_json = "1"
toml = "*"
anyhow = "1"
thiserror = "*"
tracing = "0.1"
tracing-subscriber = { version = "0.3", features = ["env-filter"] }
