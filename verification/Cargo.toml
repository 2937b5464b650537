[package]
name = "render_loop"
version = "0.1.0"
edition = "2021"
publish = false

[dependencies]
clap = "2"
piet = "*"
winit = "0.24"
