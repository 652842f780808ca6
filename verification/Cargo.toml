[package]
name = "segmask"
version = "0.1.0"
edition = "2021"
publish = false

[dependencies]
bytemuck = "*"
opencv = "*"
ort = "2.0.0-rc.2"
tracing = "*"
