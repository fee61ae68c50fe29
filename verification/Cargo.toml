[package]
name = "render_core"
version = "0.1.0"
edition = "2021"
publish = false

[dependencies]
gl = "0.14"
glfw = "0.45"
image = { version = "0.23", default-features = false, features = ["png", "jpeg", "bmp", "tga"] }
legion = "0.4"
memoffset = "0.6"
nalgebra = "0.29"
nalgebra-glm = "0.15"
rand = "0.8"
tobj = "3"
