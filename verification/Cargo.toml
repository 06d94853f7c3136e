[package]
name = "irlume_camera"
version = "0.1.0"
edition = "2021"
publish = false

[dependencies]
libc = "0.2"
v4l = "0.14.0"
