[package]
name = "netclip"
version = "0.1.0"
edition = "2021"
publish = false

[dependencies]
json = "0.12"
base64 = "0.13"
clap = "2"
