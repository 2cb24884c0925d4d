[package]
name = "mitte_riscv"
version = "0.1.0"
edition = "2021"
publish = false

[dev-dependencies]
capstone = "0.13"
