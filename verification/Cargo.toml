[package]
name = "pls"
version = "0.1.0"
edition = "2021"
publish = false

[dependencies]
git2 = { version = "*", default-features = false }
time = { version = "0.3", features = ["formatting", "parsing", "local-offset"] }
