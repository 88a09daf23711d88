[package]
name = "cairo_vm_core"
version = "0.1.0"
edition = "2021"
publish = false

[dependencies]
starknet-types-core = "*"
num-traits = "0.2"
