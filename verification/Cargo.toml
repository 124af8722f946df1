[package]
name = "tarscan"
version = "0.1.0"
edition = "2021"
publish = false

[dependencies]
regex = "1"
flate2 = "1"
tar = "0.4"
clap = { version = "4", features = ["derive"] }
