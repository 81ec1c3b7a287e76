[package]
name = "vanity_4b"
version = "0.1.0"
edition = "2021"
publish = false

[dependencies]
tiny-keccak = { version = "*", features = ["keccak"] }
rayon = "*"
log = "*"
env_logger = "*"
gumdrop = "*"
num_cpus = "*"
