[package]
name = "charset_codec"
version = "0.1.0"
edition = "2021"
publish = false

[dependencies]
chardet = "*"
encoding_rs = "*"
