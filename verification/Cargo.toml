[package]
name = "terrain_route"
version = "0.1.0"
edition = "2021"
publish = false

[dependencies]
pathfinding = "*"
bevy_math = "*"
noisy_bevy = "*"
image = "*"
imageproc = "*"
