[package]
name = "crabplay"
version = "0.1.0"
edition = "2021"
publish = false

[dependencies]
anyhow = "1"
clap = { version = "4", features = ["derive"] }
crossterm = "0.28"
lofty = "0.21"
rand = "0.8"
ratatui = "0.28"
rodio = { version = "0.19", default-features = false, features = ["symphonia-mp3", "symphonia-flac"] }
serde = { version = "1", features = ["derive"] }
serde_json = { version = "1", features = ["preserve_order"] }
thiserror = "2"
toml = "0.8"
unicode-width = "0.1"
walkdir = "2"
