[package]
name = "engine"
version = "0.1.0"
edition = "2021"
publish = false

[dependencies]
gl = "=0.14.0"
glfw = { version = "=0.51.0", default-features = false }
image = { version = "=0.25.10", default-features = false, features = ["png"] }
