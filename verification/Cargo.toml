[package]
name = "music_scan"
version = "0.1.0"
edition = "2021"
publish = false

[dependencies]
base64 = "*"
jwalk = "*"
lofty = "*"
rayon = "1"
serde = { version = "1", features = ["derive"] }
walkdir = "2"

[dev-dependencies]
tempfile = "3"
