[package]
name = "ao3reader"
version = "0.1.0"
edition = "2021"
publish = false

[dependencies]
chrono = "0.4"
reqwest = { version = "0.11", default-features = false, features = ["blocking"] }
sdl2 = "0.35"
