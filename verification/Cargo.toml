[package]
name = "blurhash_cli"
version = "0.1.0"
edition = "2021"
publish = false

[dependencies]
blurhash = "*"
clap = { version = "*", features = ["derive"] }
image = "*"
reqwest = { version = "*", features = ["blocking"] }
url = "*"
