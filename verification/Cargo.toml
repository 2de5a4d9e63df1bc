[package]
name = "cypher_cell"
version = "0.1.0"
edition = "2021"
publish = false

[dependencies]
zeroize = "1"
libc = "0.2"
