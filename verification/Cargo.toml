[package]
name = "pubky_vanity"
version = "0.1.0"
edition = "2021"
publish = false

[dependencies]
pubky = "*"
hex = "*"
num_cpus = "*"
clap = "*"
