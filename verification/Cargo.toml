[package]
name = "snmalloc-rs"
version = "0.1.0"
edition = "2021"
publish = false

[dependencies]
anyhow = "1"
cc = "1"
clap = { version = "4", features = ["derive"] }
cmake = "0.1"
regex = "1"
xshell = "0.2"
