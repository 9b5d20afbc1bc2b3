[package]
name = "groom"
version = "0.1.0"
edition = "2021"
publish = false

[dependencies]
mustache = "0.9"
serde_yaml = "0.9"
clap = "2"
log = "0.4"
loggerv = "0.7"
atty = "0.2"
ansi_term = "0.12"
