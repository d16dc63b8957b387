[package]
name = "pico_bench"
version = "0.1.0"
edition = "2021"
publish = false

[dependencies]
cortex-m = "*"
cortex-m-rt = "*"
embedded-alloc = "*"
embedded-hal = "*"
rp-pico = "*"
