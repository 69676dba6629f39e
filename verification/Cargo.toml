[package]
name = "rendercore"
version = "0.1.0"
edition = "2021"
publish = false

[dependencies]
bytemuck = "*"
glam = { version = "=0.34.1", features = ["bytemuck"] }
miniquad = "=0.4.11"
