[package]
name = "cyber_divination"
version = "0.1.0"
edition = "2021"
publish = false

[dependencies]
anyhow = "1"
crossterm = "0.28"
getrandom = "0.3"
ratatui = "0.29"
