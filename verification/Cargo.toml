[package]
name = "plantwhispers"
version = "0.1.0"
edition = "2021"
publish = false

[dependencies]
alsa = "*"
clap = { version = "4", features = ["derive"] }
crossbeam = "0.8"
rppal = "*"
