[package]
name = "car_demo"
version = "0.1.0"
edition = "2021"
publish = false

[dependencies]
clap = { version = "4", features = ["derive"] }
log = "0.4"
sdl2 = { version = "0.35", features = ["gfx", "image"] }
