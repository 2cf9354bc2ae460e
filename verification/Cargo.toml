[package]
name = "mkl_rs_build"
version = "0.1.0"
edition = "2021"
publish = false

[dependencies]
anyhow = "*"
bindgen = "*"
pkg-config = "*"
