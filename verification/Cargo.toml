[package]
name = "chip8"
version = "0.2.0"
edition = "2021"
publish = false

[dependencies]
rand = { version = "=0.9.5", features = ["small_rng"] }
embedded-graphics = "=0.8.2"
embedded-hal = { version = "=0.2.7", features = ["unproven"] }
