[package]
name = "netlib"
version = "0.1.0"
edition = "2021"
publish = false

[dependencies]
rand = "0.8"
libc = "0.2"
log = "0.4"
clap = { version = "4", features = ["derive"] }
default-net = "*"
log4rs = "*"
