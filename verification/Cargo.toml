[package]
name = "aiken"
version = "0.1.0"
edition = "2021"
publish = false

[dependencies]
hex = "=0.4.3"
clap = { version = "=4.6.7", features = ["derive"] }
miette = "=5.10.0"
