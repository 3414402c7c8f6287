[package]
name = "stacked_porep"
version = "0.1.0"
edition = "2021"
publish = false

[dependencies]
rand = "0.8"
clap = "2"
log = "0.4"
fil_logger = "*"
