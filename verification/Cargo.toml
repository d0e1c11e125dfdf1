[package]
name = "glium_pi_backend"
version = "0.1.0"
edition = "2021"
publish = false

[dependencies]
glium = { version = "*", default-features = false }
libc = "*"
shared_library = "*"
