[package]
name = "heed"
version = "0.20.0"
edition = "2021"
publish = false

[dependencies]
once_cell = "1"
page_size = "0.6"
serde = { version = "1", features = ["derive"] }
synchronoise = "1"
url = "2"
