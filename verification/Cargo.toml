[package]
name = "ashttp"
version = "0.1.0"
edition = "2021"
publish = false

[dependencies]
bytecodec = "=0.4.15"
httpcodec = "=0.2.3"
url = "=2.5.8"
async-std = "=1.13.2"
