[package]
name = "chip8_vm"
version = "0.1.0"
edition = "2021"
publish = false

[dependencies]
rand = "0.8"
chip8_base = "*"
clap = { version = "3.2", features = ["derive"] }
