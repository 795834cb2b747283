[package]
name = "gfx_core"
version = "0.1.0"
edition = "2021"
publish = false

[dependencies]
dacite = "=0.7.0"
vulkano = "=0.34.2"
vulkano-win = "=0.34.0"
winit = "=0.28.7"
ash = "=0.37.3"
glsl-to-spirv-macros = "=0.1.1"
glsl-to-spirv-macros-impl = "=0.1.0"
