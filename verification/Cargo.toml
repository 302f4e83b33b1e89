[package]
name = "scrubjay"
version = "0.1.0"
edition = "2021"
publish = false

[dependencies]
clap = "2"
colored = "*"
ignore = "*"
serde = { version = "*", features = ["derive"] }
serde_derive = "*"
shellexpand = "*"
toml = "*"
