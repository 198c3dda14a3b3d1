[package]
name = "yablo"
version = "0.2.0"
edition = "2021"
publish = false

[dependencies]
clap = "*"
crossterm = "*"
num_cpus = "*"
serde = { version = "*", features = ["derive"] }
systemstat = "*"
toml = "*"
