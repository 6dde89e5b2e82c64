[package]
name = "corrust_lib"
version = "0.1.0"
edition = "2021"
publish = false

[dependencies]
rand = "=0.8.8"
eframe = { version = "=0.22.0", default-features = false, features = ["default_fonts", "glow"] }
rfd = { version = "0.14", default-features = false, features = ["xdg-portal", "tokio"] }
