[package]
name = "animated_style"
version = "0.1.0"
edition = "2021"
publish = false

[dependencies]
glutin = "0.28"
winit = "0.26"
glean = "*"
log = "*"
