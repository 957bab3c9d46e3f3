[package]
name = "winternight"
version = "0.1.0"
edition = "2021"
publish = false

[dependencies]
pathfinding = "*"
macroquad = { version = "*", default-features = false }
asefile = "*"
image = { version = "*", default-features = false }
