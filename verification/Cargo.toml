[package]
name = "libwmctl"
version = "0.1.0"
edition = "2021"
publish = false

[dependencies]
x11rb = "0.13"
tracing = "0.1"
tracing-subscriber = "0.3"
clap = "4"
prettytable-rs = "0.10"
gory = "*"
witcher = "*"
