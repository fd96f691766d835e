[package]
name = "vorto"
version = "0.1.0"
edition = "2021"
publish = false

[dependencies]
regex = "1"
rusqlite = { version = "*", features = ["bundled"] }
ratatui = "*"
crossterm = "*"
arboard = { version = "*", default-features = false }
textwrap = "*"
