[package]
name = "pursue"
version = "0.1.0"
edition = "2021"
publish = false

[dependencies]
git2 = "=0.21.0"
regex = "=1.13.1"
tico = "=2.0.0"
clap = "=2.34.0"
dirs = "=7.0.0"

[dev-dependencies]
tempfile = "*"
