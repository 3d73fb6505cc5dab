[package]
name = "remouillage"
version = "0.1.0"
edition = "2021"
publish = false

[dependencies]
dashi = "*"
glam = "*"
gltf = "*"
serde = { version = "*", features = ["derive"] }
serde_json = "*"
