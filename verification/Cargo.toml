[package]
name = "tricore_gdb_das"
version = "0.1.0"
edition = "2021"
publish = false

[dependencies]
gdbstub = "*"
gdbstub_arch = "*"
anyhow = "*"
log = "*"
clap = "*"
pretty_env_logger = "*"
