[package]
name = "rustemu86"
version = "0.1.0"
edition = "2021"
publish = false

[dependencies]
bit_field = "0.10"
byteorder = "1"
getopts = "0.2"
gtk = "*"
gio = "*"
