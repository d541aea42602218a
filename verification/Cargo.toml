[package]
name = "ayiah"
version = "0.1.0"
edition = "2021"
publish = false

[dependencies]
urlencoding = "2"
serde = "1"
serde_json = "1"
walkdir = "2"
reqwest = { version = "0.12", default-features = false, features = ["blocking"] }
