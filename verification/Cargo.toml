[package]
name = "rustos_boot"
version = "0.1.0"
edition = "2021"
publish = false

[dependencies]
uefi = "=0.26.0"
spin = "=0.9.9"
uart_16550 = "=0.3.2"
