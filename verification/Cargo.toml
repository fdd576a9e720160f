[package]
name = "line_shell"
version = "0.1.0"
edition = "2021"
publish = false

[dependencies]
crossterm = "0.26"
env_logger = "0.10"
log = "0.4"
