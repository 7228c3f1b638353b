[package]
name = "syntect_tui"
version = "0.1.0"
edition = "2021"
publish = false

[dependencies]
syntect = { version = "*", default-features = false }
tui = { version = "*", default-features = false }
