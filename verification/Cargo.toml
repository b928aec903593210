[package]
name = "native_invoker"
version = "0.1.0"
edition = "2021"
publish = false

[dependencies]
fnv = "1"
log = "0.4"
once_cell = "1"
