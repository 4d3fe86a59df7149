[package]
name = "rust_gdx"
version = "0.1.0"
edition = "2021"
publish = false

[dependencies]
glium = "*"
glium_sdl2 = "*"
sdl2 = "*"
image = "*"
nalgebra-glm = "*"
maybe-owned = "*"
