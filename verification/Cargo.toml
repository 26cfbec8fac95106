[package]
name = "akriti_measure"
version = "0.1.0"
edition = "2021"
publish = false

[dependencies]
harfbuzz-sys = "=0.3.4"
servo-freetype-sys = "=4.0.5"
freetype = "=0.4.1"
