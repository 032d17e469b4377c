[package]
name = "measure"
version = "1.1.0"
edition = "2021"
publish = false

[dependencies]
chrono = "*"
clap = "*"
super-units = "*"
