[package]
name = "ez_doom"
version = "0.1.0"
edition = "2021"
publish = false

[dependencies]
atty = "0.2"
num = "0.4"
parking_lot = "0.12"
sdl2 = { version = "*", default-features = false }
