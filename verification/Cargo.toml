[package]
name = "rippl"
version = "0.1.0"
edition = "2021"
publish = false

[dependencies]
image = { version = "=0.24.9", default-features = false, features = ["bmp", "gif", "png"] }
imgur = "=0.7.0"
reqwest = "=0.13.5"
thiserror = "=2.0.21"
url = "=2.5.8"
