[package]
name = "lc3simlib"
version = "0.1.0"
edition = "2021"
publish = false

[dependencies]
crossterm = "*"
clap = "*"
