[package]
name = "gforce"
version = "0.1.0"
edition = "2021"
publish = false

[dependencies]
serial = "0.4"
spidev = "*"
sysfs_gpio = "*"
hmc5883l = "*"
getopts = "0.2"
yaml-rust = "0.4"
chrono = "0.4"
libc = "0.2"
