[package]
name = "rit"
version = "0.1.0"
edition = "2021"
publish = false

[dependencies]
clap = { version = "*", features = ["derive"] }
colored = "*"
config = "*"
crc32fast = "*"
dirs = "*"
git2 = "*"
glob = "*"
log = "*"
pretty_env_logger = "*"
rayon = "*"
regex = "*"
serde = { version = "*", features = ["derive"] }
serde_yaml = "*"
walkdir = "*"
