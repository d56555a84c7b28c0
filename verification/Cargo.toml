[package]
name = "glyph_atlas"
version = "0.1.0"
edition = "2021"
publish = false

[dependencies]
fontdue = "*"
rustybuzz = "*"
image = { version = "*", default-features = false }
wgpu = "*"
pollster = "*"
lyon = "*"
usvg = "*"
bytemuck = "*"
