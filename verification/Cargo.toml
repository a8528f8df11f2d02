[package]
name = "raytracer"
version = "0.1.0"
edition = "2021"
publish = false

[dependencies]
image = { version = "0.25", default-features = false, features = ["png"] }
nalgebra = { version = "0.30", features = ["rand"] }
ncollide3d = "0.33"
rand = "0.8"
rayon = "1"
piston = "*"
pistoncore-glutin_window = "*"
piston2d-graphics = "*"
piston2d-opengl_graphics = "*"
