[package]
name = "root_exec"
version = "0.1.0"
edition = "2021"
publish = false

[dependencies]
libc = "0.2"
log = "0.4"
log4rs = "1"
simple_logger = "*"
structopt = "0.3"
