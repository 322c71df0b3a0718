[package]
name = "ulp_shared"
version = "0.1.0"
edition = "2021"
publish = false

[dependencies]
riscv-decode = "=0.2.3"
smart-leds = "=0.4.0"
elf = "=0.7.4"
clap = { version = "=4.6.7", features = ["derive"] }
clap-num = "=1.2.0"
comfy-table = "=7.2.2"
