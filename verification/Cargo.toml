[package]
name = "cover_art"
version = "0.1.0"
edition = "2021"
publish = false

[dependencies]
id3 = "1"
mp4ameta = "0.11"
