[package]
name = "board_toggler"
version = "0.1.0"
edition = "2021"
publish = false

[dependencies]
clap = "4"
rusb = "0.9"
