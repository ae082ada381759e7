[package]
name = "zeos_verifier"
version = "0.1.0"
edition = "2021"
publish = false

[dependencies]
hex = "0.4"
neon = "1"
