[package]
name = "bms_gateway"
version = "0.1.0"
edition = "2021"
publish = false

[dependencies]
crc16 = "0.4"
