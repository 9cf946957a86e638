[package]
name = "monster_town"
version = "0.1.0"
edition = "2021"
publish = false

[dependencies]
sdl2 = { version = "=0.38.0", features = ["ttf", "image"] }
