[package]
name = "concentrator_reset"
version = "0.1.0"
edition = "2021"
publish = false

[dependencies]
gpio-cdev = "*"
anyhow = "*"
log = "*"
