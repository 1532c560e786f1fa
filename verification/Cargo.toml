[package]
name = "qemu_launch"
version = "0.1.0"
edition = "2021"
publish = false

[dependencies]
wait-timeout = "*"
