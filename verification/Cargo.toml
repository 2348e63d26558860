[package]
name = "crossterm_keybind"
version = "0.1.0"
edition = "2021"
publish = false

[dependencies]
toml = "*"
crossterm = "0.28.1"
