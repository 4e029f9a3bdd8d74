[package]
name = "libsnatch"
version = "0.1.0"
edition = "2021"
publish = false

[dependencies]
hyper = "0.10"
ansi_term = "0.12"
clap = "2"
num_cpus = "1"
pbr = "1"
