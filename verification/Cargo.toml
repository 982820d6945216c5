[package]
name = "mget"
version = "0.1.0"
edition = "2021"
publish = false

[dependencies]
anyhow = "1"
clap = "2"
hickory-proto = "0.25"
rand = "0.9"
smoltcp = "0.12"
url = "2"
