[package]
name = "sd_journal"
version = "0.1.0"
edition = "2021"
publish = false

[dependencies]
chrono = "*"
libc = "*"
sd-id128 = "*"
sd-sys = "*"
