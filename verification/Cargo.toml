[package]
name = "igl_rs"
version = "0.1.0"
edition = "2021"
publish = false

[dependencies]
glam = "=0.29.3"
winit = "=0.29.15"
raw-window-handle = "=0.6.2"
