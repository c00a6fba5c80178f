[package]
name = "witx_lowering"
version = "0.1.0"
edition = "2021"
publish = false

[dependencies]
witx = "0.9"
witnext = "0.10.0-beta3"
