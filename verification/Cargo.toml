[package]
name = "video_frame"
version = "0.1.0"
edition = "2021"
publish = false

[dependencies]
core-video = "*"
windows = { version = "*", features = ["Win32_Graphics_Direct3D11"] }
