[package]
name = "slidegrid"
version = "0.1.0"
edition = "2021"
publish = false

[dependencies]
dirs = "*"
slint = { version = "*", default-features = false, features = ["std", "compat-1-2"] }
