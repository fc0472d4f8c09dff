[package]
name = "character_twister"
version = "0.1.0"
edition = "2021"
publish = false

[dependencies]
chrono = "=0.4.45"
clap = "=2.34.0"
log = "=0.3.9"
simplelog = "=0.4.4"
toml = "0.8"
