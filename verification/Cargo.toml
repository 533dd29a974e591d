[package]
name = "dbm"
version = "0.1.0"
edition = "2021"
publish = false

[dependencies]
aarch64-paging = "0.5.0"
