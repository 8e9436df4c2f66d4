[package]
name = "yet-another-rchip8"
version = "0.1.0"
edition = "2021"
publish = false

[dependencies]
rand = "0.8"
log = "0.4"
env_logger = "0.10"
clap = "2"
chrono = "0.4"
crossbeam-channel = "0.5"
sdl2 = "0.35"
