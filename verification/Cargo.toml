[package]
name = "fsevent_watch"
version = "0.1.0"
edition = "2021"
publish = false

[dependencies]
crossbeam-channel = "0.5"
fsevent-sys = "4"
libc = "0.2"
