[package]
name = "nbody"
version = "0.1.0"
edition = "2021"
publish = false

[dependencies]
const_soft_float = "=0.1.4"
eframe = "=0.18.0"
rustc_apfloat = "0.2"
