[package]
name = "gba_rustmulator"
version = "0.1.0"
edition = "2021"
publish = false

[dependencies]
glium = "0.29"
imgui = "0.7"
imgui-glium-renderer = "0.7"
imgui-winit-support = "0.7"
spin_sleep = "1"
