[package]
name = "gui_toolkit"
version = "0.1.0"
edition = "2021"
publish = false

[dependencies]
vecmat = "=0.7.9"
glfw = { version = "0.52", default-features = false }
image = { version = "=0.25.10", default-features = false }
freetype-rs = "=0.38.0"
libc = "=0.2.191"
gl = "=0.14.0"
