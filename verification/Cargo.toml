[package]
name = "isolate"
version = "0.1.0"
edition = "2021"
publish = false

[dependencies]
clap = "*"
nix = { version = "*", features = ["sched", "mount", "hostname", "fs", "process", "signal"] }
serde = "*"
serde_derive = "*"
toml = "*"
