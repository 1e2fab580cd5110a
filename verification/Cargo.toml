[package]
name = "sb_itchy"
version = "0.1.0"
edition = "2021"
publish = false

[dependencies]
rs-sb3 = "*"
parking_lot = "*"
