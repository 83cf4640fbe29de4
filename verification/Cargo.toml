[package]
name = "cati"
version = "0.1.0"
edition = "2021"
publish = false

[dependencies]
nix = { version = "0.29", features = ["fs", "poll", "time"] }
termios = "0.3"
log = "0.4"
env_logger = "0.11"
