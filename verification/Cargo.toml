[package]
name = "wave_art"
version = "0.1.0"
edition = "2021"
publish = false

[dependencies]
clap = { version = "4", features = ["derive"] }
hound = "3"
minimp3 = "0.5"
term_size = "*"
tuple_utils = "*"
