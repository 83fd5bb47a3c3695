[package]
name = "wyag"
version = "0.1.0"
edition = "2021"
publish = false

[dependencies]
configparser = "3"
flate2 = "1"
sha1 = "0.10"
clap = "4"
