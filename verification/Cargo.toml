[package]
name = "tabfy"
version = "0.1.0"
edition = "2021"
publish = false

[dependencies]
regex = "=1.13.1"
json = "=0.12.4"
nu-plugin = "=0.115.1"
nu-protocol = "=0.115.1"
