[package]
name = "hpack_encoder"
version = "0.1.0"
edition = "2021"
publish = false

[dependencies]
bytes = "1"
http = "1"
httlib-huffman = "*"

[dev-dependencies]
hpack = "*"
