[package]
name = "typebeast"
version = "0.1.0"
edition = "2021"
publish = false

[dependencies]
random_word = { version = "0.5", features = ["en"] }
crossterm = "0.28"
ratatui = "0.29"
