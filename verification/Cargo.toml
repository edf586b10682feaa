[package]
name = "twitch_chat"
version = "0.1.0"
edition = "2021"
publish = false

[dependencies]
rand = "0.8"
chrono = "0.4"
crossbeam = "0.8"
crossterm = "*"
nom = "7"
textwrap = "*"
tungstenite = "*"
unicode-width = "*"
