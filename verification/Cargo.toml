[package]
name = "fractal_lab"
version = "0.1.0"
edition = "2021"
publish = false

[dependencies]
hdrhistogram = "7"
clap = { version = "4", features = ["derive"] }
glium = "0.32"
imgui = "0.11"
imgui-glium-renderer = "0.11"
imgui-winit-support = "0.11"
