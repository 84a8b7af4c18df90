[package]
name = "timer_cell"
version = "0.1.0"
edition = "2021"
publish = false

[dependencies]
blake2b-ref = "=0.3.1"
ckb-std = "*"
