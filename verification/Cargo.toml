[package]
name = "rmatrix"
version = "0.1.0"
edition = "2021"
publish = false

[dependencies]
rand = "=0.8.8"
rand_xorshift = "=0.3.0"
clap = "=2.34.0"
parking_lot = "=0.12.5"
signal = "=0.7.0"
termion = "*"
