[package]
name = "qor_rto"
version = "0.1.0"
edition = "2021"
publish = false

[dependencies]
iceoryx2 = "0.5"
