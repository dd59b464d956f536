[package]
name = "hotham"
version = "0.2.0"
edition = "2021"
publish = false

[dependencies]
ash = "*"
ctrlc = "*"
glam = "*"
gltf = { version = "*", features = ["KHR_lights_punctual"] }
nalgebra = "*"
openxr = { version = "*", default-features = false }
serde = { version = "*", features = ["derive"] }
