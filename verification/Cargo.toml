[package]
name = "photo_renamer"
version = "0.1.0"
edition = "2021"
publish = false

[dependencies]
kamadak-exif = "0.6"
anyhow = "1"
clap = { version = "4", features = ["derive"] }
walkdir = "2"
