[package]
name = "deary"
version = "0.1.0"
edition = "2021"
publish = false

[dependencies]
git2 = "*"
tempfile = "*"
which = "*"
chrono = "*"
clap = "*"
