[package]
name = "gatt_topshim"
version = "0.1.0"
edition = "2021"
publish = false

[dependencies]
cxx = "1.0"
num-traits = "0.2"
