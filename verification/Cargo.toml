[package]
name = "point_cloud_viewer"
version = "0.1.0"
edition = "2021"
publish = false

[dependencies]
clap = { version = "=2.34.0", features = ["yaml"] }
gl = "=0.14.0"
glfw = { version = "=0.51.0", default-features = false }
lazy_static = "=1.4.0"
nalgebra-glm = "=0.18.0"
stb_image = "=0.2.5"
tobj = "=3.2.5"
