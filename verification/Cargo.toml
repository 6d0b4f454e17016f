[package]
name = "interceptor"
version = "0.1.0"
edition = "2021"
publish = false

[dependencies]
semver = "1"
serde_json = "1"
ureq = "2"
ratatui = "0.29"
crossterm = "0.28"
