[package]
name = "unitmath"
version = "0.1.0"
edition = "2021"

[dependencies]
rustc_apfloat = "=0.2.3"
const_soft_float = "=0.1.4"
