[package]
name = "duel_game"
version = "0.1.0"
edition = "2021"
publish = false

[dependencies]
rand = "0.8"
log = "0.4"
env_logger = "0.10"
clap = { version = "4", features = ["derive"] }
crossterm = "0.27"
