[package]
name = "streamdeck_ctrl"
version = "0.1.0"
edition = "2021"
publish = false

[dependencies]
anyhow = "*"
crossbeam-channel = "*"
elgato-streamdeck = "*"
image = "*"
once_cell = "*"
serde = { version = "*", features = ["derive"] }
serde_json = "*"
signal-hook = "*"
tracing = "*"
tracing-subscriber = "*"
resvg = "*"
usvg = "*"
tiny-skia = "*"
