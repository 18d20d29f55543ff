[package]
name = "sbi"
version = "0.1.0"
edition = "2021"
publish = false

[dependencies]
assertions = "=0.1.0"
tock-registers = "0.8"
