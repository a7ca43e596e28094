[package]
name = "file_compressor"
version = "2.0.0"
edition = "2021"
publish = false

[dependencies]
clap = "3"
colored = "2"
flate2 = "1"
indicatif = "0.17"
