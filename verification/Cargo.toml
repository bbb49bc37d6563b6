[package]
name = "interprocess"
version = "0.1.0"
edition = "2021"
publish = false

[dependencies]
futures-core = "0.3"
libc = "0.2"
to_method = "*"
widestring = "1"
