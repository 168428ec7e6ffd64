[package]
name = "z3"
version = "0.1.0"
edition = "2021"
publish = false

[dependencies]
log = "0.4"
z3-sys = "0.6"
