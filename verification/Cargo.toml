[package]
name = "super_copy"
version = "0.1.0"
edition = "2021"
publish = false

[dependencies]
fs_extra = "*"
winreg = "*"
