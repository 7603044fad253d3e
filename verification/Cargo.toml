[package]
name = "rdma"
version = "0.1.0"
edition = "2021"
publish = false

[dependencies]
libc = "=0.2.191"
rdma-sys = "=0.3.0"
