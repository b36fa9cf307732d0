[package]
name = "asteroids_core"
version = "0.1.0"
edition = "2021"
publish = false

[dependencies]
find_folder = "*"
sdl2 = { version = "*", features = ["gfx", "mixer"] }
serialport = "*"
