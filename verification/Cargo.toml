[package]
name = "x64emu"
version = "0.1.0"
edition = "2021"
publish = false

[dependencies]
getopts = "*"
env_logger = "*"
log = "*"
thiserror = "*"
gdbstub = "0.4"

[dev-dependencies]
packed_struct = "*"
