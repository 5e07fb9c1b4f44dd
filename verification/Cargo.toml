[package]
name = "gl_basics"
version = "0.1.0"
edition = "2021"
publish = false

[dependencies]
cgmath = "0.18"
gl = "0.14"
sdl2 = "*"
