[package]
name = "sh_exec"
version = "0.1.0"
edition = "2021"
publish = false

[dependencies]
shells = "*"
anyhow = "*"
colored = "*"
env_logger = "*"
log = "*"
