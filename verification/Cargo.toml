[package]
name = "fastpasta"
version = "0.1.0"
edition = "2021"
publish = false

[dependencies]
atty = "0.2"
crossbeam-channel = "0.5"
log = "0.4"
structopt = "0.3"
