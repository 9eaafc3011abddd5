[package]
name = "hustoa_vm"
version = "0.1.2"
edition = "2021"
publish = false

[dependencies]
rand = "0.8"
hex = "0.4"
filenamify = "*"
semver = "1"
clap = { version = "4", features = ["derive"] }
colored = "2"
env_logger = "*"
log = "0.4"
serde = { version = "1", features = ["derive"] }
serde_yaml = "0.9"
serde_yml = "*"
toml = "0.8"
which = "*"
tempfile = "3"

[dev-dependencies]
toml = "0.8"
