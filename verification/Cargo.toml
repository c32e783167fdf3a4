[package]
name = "i2c_slave_gpio"
version = "0.1.0"
edition = "2021"
publish = false

[dependencies]
gpio-cdev = "*"
log = "*"
env_logger = "*"
structopt = "*"
anyhow = "*"
thiserror = "*"
quicli = "*"
