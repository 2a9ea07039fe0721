[package]
name = "measured"
version = "0.1.0"
edition = "2021"
publish = false

[dependencies]
bytes = "*"
hashbrown = "*"
parking_lot = "*"
rustc-hash = "*"
rustc_apfloat = "*"
