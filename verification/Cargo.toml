[package]
name = "video_wallpaper"
version = "0.1.0"
edition = "2021"
publish = false

[dependencies]
ffmpeg-next = "*"
x11 = { version = "*", features = ["xlib"] }
