[package]
name = "um_game_of_life"
version = "0.1.0"
edition = "2021"
publish = false

[dependencies]
rand = "*"
metal = "*"
winit = "*"
objc2 = "*"
objc2-app-kit = "*"
objc2-foundation = "*"
raw-window-handle = "*"
raw-window-metal = "*"
core-graphics-types = "*"
libc = "*"
