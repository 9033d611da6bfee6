[package]
name = "folderslint"
version = "0.1.0"
edition = "2021"
publish = false

[dependencies]
glob = "*"
regex = "*"
serde = { version = "*", features = ["derive"] }
serde_json = "*"
walkdir = "*"
