[package]
name = "turn_attr_codec"
version = "0.1.0"
edition = "2021"
publish = false

[dependencies]
bytecodec = "=0.5.0"
trackable = "*"
