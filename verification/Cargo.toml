[package]
name = "uf_crsf"
version = "0.1.0"
edition = "2021"
publish = false

[dependencies]
crc = "3"
embedded-io = "0.6"
embedded-io-async = "0.6"
heapless = "0.8"
libm = "0.2"
