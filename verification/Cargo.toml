[package]
name = "ruspiro_boot"
version = "0.1.0"
edition = "2021"
publish = false

[dependencies]
ruspiro-register = "=0.5.5"
ruspiro-arch-aarch64 = "=0.1.7"
ruspiro-cache = "=0.4.1"
ruspiro-uart = "=0.4.0"
log = "=0.4.34"
