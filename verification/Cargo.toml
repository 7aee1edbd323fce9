[package]
name = "particle_pipeline"
version = "0.1.0"
edition = "2021"
publish = false

[dependencies]
rand = "*"
glow = "*"
log = "*"
sdl3 = "*"
shaderc = "*"
