[package]
name = "dx12_rs"
version = "0.1.0"
edition = "2021"
publish = false

[dependencies]
bevy_ecs = "0.8"
glam = { version = "*", features = ["serde"] }
gltf = "*"
hassle-rs = "*"
itertools = "*"
native-dialog = "0.6"
rayon = "*"
serde = { version = "*", features = ["derive"] }
