[package]
name = "glyph_mesh"
version = "0.1.0"
edition = "2021"
publish = false

[dependencies]
interoptopus = "=0.13.15"
ttf2mesh-sys = "=0.1.3"
