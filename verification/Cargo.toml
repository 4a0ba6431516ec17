[package]
name = "berechenbarkeit"
version = "0.1.0"
edition = "2021"
publish = false

[dependencies]
regex = "1"
clap = { version = "4", features = ["derive"] }
anyhow = "1"
pdf-extract = "*"
