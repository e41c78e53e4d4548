[package]
name = "blinky_button"
version = "0.1.0"
edition = "2021"
publish = false

[dependencies]
cortex-m = "*"
cortex-m-rt = "*"
nrf52833-pac = "*"
rtt-target = "*"
