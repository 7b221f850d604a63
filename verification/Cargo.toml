[package]
name = "osc_tools"
version = "0.1.0"
edition = "2021"
publish = false

[dependencies]
rosc = "0.10"
anyhow = "1"
clap = { version = "4", features = ["derive"] }
