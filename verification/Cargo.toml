[package]
name = "rlxc"
version = "0.1.0"
edition = "2021"
publish = false

[dependencies]
anyhow = "1"
clap = "2"
libc = "0.2"
prettytable-rs = "0.10"
rayon = "1"
