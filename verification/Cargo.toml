[package]
name = "ula_prefix"
version = "0.1.0"
edition = "2021"
publish = false

[dependencies]
anyhow = "*"
mac_address = "*"
ntp = "*"
sha1 = "*"
structopt = "*"
