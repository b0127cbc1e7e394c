[package]
name = "rc_commands"
version = "0.1.0"
edition = "2021"
publish = false

[dependencies]
heapless = "=0.8.0"
nalgebra = "=0.35.0"
slip-codec = "=0.4.0"
