[package]
name = "sov_snap_generator"
version = "0.1.0"
edition = "2021"
publish = false

[dependencies]
anyhow = "1"
clap = { version = "4", features = ["derive"] }
console = "*"
duct = "*"
rustyline = "*"
rustyline-derive = "*"
toml = "0.8"
