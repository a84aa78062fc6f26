[package]
name = "libpd_rs"
version = "0.1.0"
edition = "2021"
publish = false

[dependencies]
libpd-sys = "*"
libffi = "*"
tempfile = "3"
thiserror = "*"
