[package]
name = "ublox"
version = "0.1.0"
edition = "2021"
publish = false

[dependencies]
log = "=0.4.34"
env_logger = "=0.11.11"
structopt = "=0.3.26"
serialport = { version = "=4.10.1", default-features = false }
i2c-linux = "=0.1.2"
sysfs_gpio = "=0.6.2"
