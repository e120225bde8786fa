[package]
name = "novaforge"
version = "0.1.0"
edition = "2021"
publish = false

[dependencies]
fyrox = { version = "*", default-features = false }
