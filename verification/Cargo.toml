[package]
name = "chunk"
version = "0.1.0"
edition = "2021"
publish = false

[dependencies]
arboard = { version = "3", default-features = false }
clap = { version = "4", features = ["derive"] }
color-eyre = "0.6"
crossterm = "0.29"
notify = "8"
pulldown-cmark = { version = "0.13", default-features = false }
ratatui = "0.29"
serde = { version = "1", features = ["derive"] }
syntect = { version = "5", default-features = false, features = ["default-fancy"] }
toml = "0.9"
two-face = { version = "*", default-features = false, features = ["syntect-default-fancy"] }
