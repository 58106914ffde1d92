[package]
name = "tty_spawn"
version = "0.4.0"
edition = "2021"
publish = false

[dependencies]
anyhow = "1"
clap = "4"
nix = { version = "0.29", default-features = false, features = ["fs", "ioctl", "poll", "process", "signal", "term"] }
signal-hook = "0.3"
