[package]
name = "gadget_nes"
version = "0.3.0"
edition = "2021"
publish = false

[dependencies]
clap = "=2.34.0"
sdl2 = "=0.32.2"

[dev-dependencies]
nom = "3"
