[package]
name = "printy"
version = "0.1.0"
edition = "2021"
publish = false

[dependencies]
markdown = "*"
rusb = "*"
hexyl = "*"
clap = { version = "*", features = ["derive"] }
