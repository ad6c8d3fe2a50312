[package]
name = "omwei"
version = "0.1.0"
edition = "2021"
publish = false

[dependencies]
sha2 = "=0.10.9"
riscv = "=0.11.1"
