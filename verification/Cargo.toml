[package]
name = "wallcycler"
version = "0.1.0"
edition = "2021"
publish = false

[dependencies]
glob = "*"
rand = "0.8"
chrono = "*"
which = "*"
clap = { version = "*", features = ["derive"] }
hyprland = "*"
