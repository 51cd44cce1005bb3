[package]
name = "nh"
version = "0.1.0"
edition = "2021"
publish = false

[dependencies]
tempfile = "*"
clap = { version = "*", features = ["derive"] }
clap_complete = "*"
color-eyre = "*"
dialoguer = "*"
etcetera = "*"
nix = { version = "*", features = ["user", "hostname"] }
subprocess = "*"
tracing = "*"
which = "*"
