[package]
name = "pbrt"
version = "0.1.0"
edition = "2021"
publish = false

[dependencies]
rand = "=0.9.5"
num_cpus = "=1.17.0"
getrandom = "=0.3.4"
