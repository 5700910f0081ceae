[package]
name = "natgeo_wallpapers"
version = "0.1.0"
edition = "2021"
publish = false

[dependencies]
rand = "0.8"
chrono = "*"
clap = { version = "*", features = ["derive"] }
owo-colors = "*"
reqwest = { version = "*", default-features = false, features = ["blocking"] }
thiserror = "*"
