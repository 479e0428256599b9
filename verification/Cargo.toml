[package]
name = "termusic"
version = "0.1.0"
edition = "2021"
publish = false

[dependencies]
rand = "=0.10.3"
reqwest = { version = "=0.13.5", default-features = false, features = ["blocking", "query", "json"] }
serde = { version = "*", features = ["derive"] }
urlencoding = "=2.1.3"
walkdir = "=2.5.0"
wildmatch = "=2.6.1"
