[package]
name = "ares"
version = "0.1.0"
edition = "2021"
publish = false

[dependencies]
base64 = "0.13"
bs58 = "0.4"
data-encoding = "2"
log = "0.4"
