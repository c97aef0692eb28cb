[package]
name = "map_projections"
version = "0.1.0"
edition = "2021"
publish = false

[dependencies]
cgmath = "=0.18.0"
glium = "=0.35.0"
image = "=0.25.10"
imgui = "=0.12.0"
imgui-glium-renderer = "=0.13.0"
imgui-winit-support = "=0.13.0"
shapefile = "=0.9.0"
