[package]
name = "cpu_rec_rs"
version = "0.1.0"
edition = "2021"
publish = false

[dependencies]
anyhow = "*"
clap = "*"
glob = "*"
log = "*"
simple_logger = "*"
tablestream = "*"

[dev-dependencies]
rand = "0.8"
