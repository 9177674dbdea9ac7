[package]
name = "gtbuilder"
version = "0.1.0"
edition = "2021"
publish = false

[dependencies]
file-matcher = "*"
to_absolute = "*"
url = "*"
clap = { version = "*", features = ["derive"] }
indicatif = "*"
