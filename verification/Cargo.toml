[package]
name = "radiance"
version = "0.1.0"
edition = "2021"
publish = false

[dependencies]
clap = { version = "3", features = ["derive"] }
crossterm = "0.23"
serde = { version = "1", features = ["derive"] }
serde_yaml = "0.8"
textwrap = "0.15"
walkdir = "2"
yaml-rust = "0.4"
