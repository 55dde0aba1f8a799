[package]
name = "loglog"
version = "0.2.0"
edition = "2021"
publish = false

[dependencies]
ansi_term = "0.9"
chrono = "0.4"
env_logger = { version = "0.4", default-features = false }
error-chain = { version = "0.12", default-features = false }
isatty = "0.1"
log = "0.3"
