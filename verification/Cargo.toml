[package]
name = "canvas_core"
version = "0.1.0"
edition = "2021"
publish = false

[dependencies]
neon = "1"
rayon = "1"
