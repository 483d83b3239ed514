[package]
name = "swviewer"
version = "0.1.0"
edition = "2021"
publish = false

[dependencies]
rusb = "*"
clap = "2"
log = "*"
simple_logger = "*"
