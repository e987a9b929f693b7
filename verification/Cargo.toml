[package]
name = "iodine"
version = "0.1.0"
edition = "2021"
publish = false

[dependencies]
serde = { version = "*", features = ["derive"] }
toml = "*"
nix = { version = "*", features = ["signal", "user", "process"] }
signal-hook = "*"
nc = "*"
crossbeam = "*"
