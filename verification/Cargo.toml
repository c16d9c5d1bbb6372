[package]
name = "mini_magnets"
version = "0.1.0"
edition = "2021"
publish = false

[dependencies]
serde = "*"
serde_derive = "*"
serde_json = "*"
sdl2 = { version = "*", features = ["image"] }
