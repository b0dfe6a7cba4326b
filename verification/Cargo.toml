[package]
name = "huecycle"
version = "0.1.0"
edition = "2021"
publish = false

[dependencies]
palette = "=0.7.7"
sdl2 = "=0.38.0"
clap = { version = "=4.6.7", features = ["env"] }
