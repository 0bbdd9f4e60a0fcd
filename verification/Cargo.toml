[package]
name = "tmuxy"
version = "0.1.0"
edition = "2021"
publish = false

[dependencies]
shellwords = "*"
clap = { version = "*", features = ["derive", "env"] }
serde = { version = "*", features = ["derive"] }
toml = "*"
directories = "*"
color-eyre = "*"
