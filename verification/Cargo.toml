[package]
name = "ebql"
version = "0.1.0"
edition = "2021"
publish = false

[dependencies]
handlebars = "*"
serde_json = "*"
rand = "*"
nom-sql = "*"
libbpf-rs = "*"
libbpf-sys = "*"
libc = "*"
crossbeam = "*"
clap = { version = "*", features = ["derive"] }
env_logger = "*"
log = "*"
anyhow = "*"
which = "*"
procfs = "*"
