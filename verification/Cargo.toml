[package]
name = "game_lib"
version = "0.1.0"
edition = "2021"
publish = false

[dependencies]
crossterm = "0.27"
rand = "0.8"
serialport = { version = "4", default-features = false }
