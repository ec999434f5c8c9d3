[package]
name = "pfui"
version = "0.1.0"
edition = "2021"
publish = false

[dependencies]
anyhow = "*"
clap = { version = "*", features = ["derive"] }
mountinfo = "*"
nix = { version = "*", features = ["inotify", "poll"] }
