[package]
name = "glyphgrid"
version = "0.1.0"
edition = "2021"
publish = false

[dependencies]
crossfont = "*"
futures = "0.3"
log = "0.4"
thiserror = "1"
winit = "*"
wgpu = "*"
zi = "*"
