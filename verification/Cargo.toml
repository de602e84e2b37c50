[package]
name = "nite2"
version = "0.1.0"
edition = "2021"
publish = false

[dependencies]
nite2-sys = "*"
openni2 = "*"
