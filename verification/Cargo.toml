[package]
name = "lrchip8"
version = "0.1.0"
edition = "2021"
publish = false

[dependencies]
oorandom = "11.1"
sdl2 = "0.35"
