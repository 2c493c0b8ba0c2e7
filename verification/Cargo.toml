[package]
name = "oxidoc"
version = "0.1.0"
edition = "2021"
publish = false

[dependencies]
ansi_term = "=0.9.0"
term_size = "=0.3.2"
clap = "=2.34.0"
env_logger = "=0.4.3"
error-chain = "=0.10.0"
log = "=0.3.9"
pager = "=0.16.1"
bincode = "=1.3.3"
serde = { version = "=1.0.229", features = ["derive"] }
