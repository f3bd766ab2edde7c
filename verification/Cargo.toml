[package]
name = "pathos"
version = "0.3.0"
edition = "2021"
publish = false

[dependencies]
dirs = "*"
eieio = "*"
iref = "2"
libc = "0.2"
log = "0.4"
once_cell = "1"
os_str_bytes = "*"
percent-encoding = "2"
thiserror = "1"
windirs = "*"
