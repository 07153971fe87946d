[package]
name = "bot_control"
version = "0.1.0"
edition = "2021"
publish = false

[dependencies]
uom = "0.34"
vex-rt = "0.15"
