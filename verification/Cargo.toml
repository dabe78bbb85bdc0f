[package]
name = "z_editor"
version = "0.1.0"
edition = "2021"
publish = false

[dependencies]
crossterm = "0.23"
env_logger = "0.9"
log = "0.4"
