[package]
name = "linker"
version = "0.1.0"
edition = "2021"
publish = false

[dependencies]
clap = { version = "4", features = ["derive"] }
path-clean = "1"
pathdiff = "0.2"

[dev-dependencies]
tempfile = "3"
