[package]
name = "plant_scheduler"
version = "0.1.0"
edition = "2021"
publish = false

[dependencies]
crossbeam-channel = "*"
rand = "*"
ctrlc = "*"
sysfs_gpio = "*"
