[package]
name = "stim"
version = "0.1.0"
edition = "2021"
publish = false

[dependencies]
crossterm = "0.28"
dirs = "6"
lofty = "0.22"
rand = "0.9"
ratatui = "0.29"
rodio = "0.21"
serde = { version = "1", features = ["derive"] }
serde_json = "1"
walkdir = "2"
