[package]
name = "tinyvm"
version = "0.1.0"
edition = "2021"
publish = false

[dependencies]
cortex-a = "8"
fdt = "*"
smccc = "0.1"
tock-registers = "0.8"
