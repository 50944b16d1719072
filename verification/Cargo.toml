[package]
name = "xwiimote"
version = "0.1.0"
edition = "2021"
publish = false

[dependencies]
futures = "0.3"
libc = "0.2"
once_cell = "1"
signal-hook = "0.3"
