[package]
name = "copes"
version = "1.0.0"
edition = "2021"
publish = false

[dependencies]
anyhow = "1"
clap = "4"
ctrlc = "3"
libc = "0.2"
log = "0.4"
simple_logger = "*"
termcolor = "1"
