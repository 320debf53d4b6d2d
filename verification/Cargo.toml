[package]
name = "laser_dac"
version = "0.1.0"
edition = "2021"
publish = false

[dependencies]
cpal = "0.15"
crossbeam-queue = "0.3"
log = "0.4"
