[package]
name = "init_wrapper"
version = "0.1.0"
edition = "2021"
publish = false

[dependencies]
libc = "=0.2.191"
errno = "=0.3.14"
libc-print = "=0.5.0"
