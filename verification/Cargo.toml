[package]
name = "mmap_shim"
version = "0.1.0"
edition = "2021"
publish = false

[dependencies]
errno = "0.3"
libc = "0.2"
