[package]
name = "uptechstar-rs"
version = "0.1.0"
edition = "2021"
publish = false

[dependencies]
libloading = "0.8"
log = "0.4"
once_cell = "1"
tempfile = "3"
