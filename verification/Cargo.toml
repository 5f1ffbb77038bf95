[package]
name = "cpp_scaffold"
version = "0.1.0"
edition = "2021"
publish = false

[dependencies]
anyhow = "1"
clap = { version = "4", features = ["derive"] }
convert_case = "0.6"
log = "0.4"
pretty_env_logger = "0.5"
