[package]
name = "dfmn"
version = "0.1.0"
edition = "2021"
publish = false

[dependencies]
regex = "*"
clap = { version = "*", features = ["derive"] }
colored = "*"
online = "*"
thiserror = "*"
walkdir = "*"
