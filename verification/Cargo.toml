[package]
name = "nats-spy"
version = "0.1.0"
edition = "2021"
publish = false

[dependencies]
anyhow = "1"
chrono = "0.4"
clap = "2"
crossterm = "0.25"
log = "0.4"
nats = "*"
scopeguard = "1"
tui = "0.19"
tui-logger = "0.8"
unicode-width = "0.1"
