[package]
name = "acr_crash_table"
version = "0.2.0"
edition = "2021"
publish = false

[dependencies]
csv = "1"
clap = "2"
log = "0.4"
simplelog = "*"
