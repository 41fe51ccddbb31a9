[package]
name = "p25rx"
version = "0.1.0"
edition = "2021"
publish = false

[dependencies]
fnv = "=1.0.7"
mio = "=0.6.23"
pool = "=0.1.4"
