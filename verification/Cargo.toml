[package]
name = "clipboard_processor"
version = "0.1.0"
edition = "2021"
publish = false

[dependencies]
anyhow = "=1.0.104"
async-openai = "=0.28.3"
clap = { version = "=4.6.7", features = ["derive"] }
clipboard-win = "=5.4.3"
default-device-sink = "=0.1.0"
dotenvy = "=0.15.7"
image = { version = "=0.25.10", default-features = false, features = ["bmp", "gif", "ico", "jpeg", "png", "pnm", "tga", "tiff", "webp"] }
rdev = "=0.5.3"
rodio = "=0.17.3"
tempfile = "=3.27.0"
tokio = { version = "=1.54.1", features = ["rt-multi-thread"] }
winapi = { version = "=0.3.9", features = ["utilapiset"] }
