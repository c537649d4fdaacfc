[package]
name = "kit"
version = "0.1.0"
edition = "2021"
publish = false

[dependencies]
clap = "2"
configparser = "*"
flate2 = "1"
sha = "1"
