[package]
name = "cxl_fm"
version = "0.1.0"
edition = "2021"
publish = false

[dependencies]
clap = "4"
daemonize = "0.5"
