[package]
name = "rcc"
version = "0.1.0"
edition = "2021"
publish = false

[dependencies]
ariadne = "*"
chumsky = "*"
clap = { version = "*", features = ["derive"] }
color-eyre = "*"
