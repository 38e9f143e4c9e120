[package]
name = "ninjaedit_tui"
version = "0.1.0"
edition = "2021"
publish = false

[dependencies]
arboard = { version = "3", default-features = false }
crossterm = "0.28"
ratatui = "0.29"
