[package]
name = "corrupted_gif"
version = "0.1.0"
edition = "2021"
publish = false

[dependencies]
image = "*"
gif = "*"
rand = "*"
