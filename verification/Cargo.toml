[package]
name = "roll_play_ge"
version = "0.1.0"
edition = "2021"
publish = false

[dependencies]
piston_window = "*"
piston2d-sprite = "*"
tiled = "*"
image = "*"
find_folder = "*"
