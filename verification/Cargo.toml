[package]
name = "piet_hardware"
version = "0.1.0"
edition = "2021"
publish = false

[dependencies]
wgpu = "0.17"
lyon_tessellation = "1"
kurbo = "0.11"
piet = "0.6"
tiny-skia = "0.11"
