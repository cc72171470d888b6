[package]
name = "usci"
version = "0.1.0"
edition = "2021"
publish = false

[dependencies]
rand = "0.8"
anyhow = "1"
clap = { version = "4", features = ["derive"] }
termcolor = "1"
