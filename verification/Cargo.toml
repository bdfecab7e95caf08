[package]
name = "pet_overlay"
version = "0.1.0"
edition = "2021"
publish = false

[dependencies]
mouce = "*"
mouse_position = "*"
serde = { version = "1", features = ["derive"] }
