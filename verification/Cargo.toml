[package]
name = "solar_renderer"
version = "0.1.0"
edition = "2021"
publish = false

[dependencies]
image = { version = "0.25", default-features = false, features = ["jpeg", "png"] }
rand = "0.8"
nalgebra-glm = "*"
minifb = "*"
tobj = "*"
