[package]
name = "glyphydog"
version = "0.1.0"
edition = "2021"
publish = false

[dependencies]
euclid = "=0.22.14"
xi-unicode = "=0.1.0"
freetype = "=0.8.0"
harfbuzz-sys = { version = "=0.8.0", features = ["bundled"] }
libc = "=0.2.191"
lazy_static = "=1.5.1"
