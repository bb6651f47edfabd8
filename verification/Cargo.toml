[package]
name = "album_sorter"
version = "0.1.0"
edition = "2021"
publish = false

[dependencies]
cached = { version = "=4.0.3", default-features = false }
clap = { version = "=4.6.7", features = ["derive"] }
serde_json = "=1.0.154"
walkdir = "=2.5.0"
