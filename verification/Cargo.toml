[package]
name = "mod_installer"
version = "0.1.0"
edition = "2021"
publish = false

[dependencies]
zip = "*"
fs_extra = "*"
crossbeam-channel = "*"
