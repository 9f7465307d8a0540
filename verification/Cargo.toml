[package]
name = "minau"
version = "0.1.0"
edition = "2021"
publish = false

[dependencies]
url = "2"
unicode-width = "0.2"
clap = { version = "4", features = ["derive"] }
walkdir = "2"
lofty = "0.18"
rodio = "0.17"
