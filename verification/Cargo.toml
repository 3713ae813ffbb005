[package]
name = "any_uart"
version = "0.1.0"
edition = "2021"
publish = false

[dependencies]
fdt-parser = "=0.4.19"
embedded-hal-nb = "=1.0.0"
