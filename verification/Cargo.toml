[package]
name = "mod_browser"
version = "0.1.0"
edition = "2021"
publish = false

[dependencies]
json5 = "=0.4.1"
libthermite = "*"
ratatui = "=0.24.0"
crossterm = "=0.27.0"
anyhow = "1"
log = "0.4"
once_cell = "1"
simple-logging = "2"
