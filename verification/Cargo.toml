[package]
name = "wasefire_tools"
version = "0.1.0"
edition = "2021"
publish = false

[dependencies]
anyhow = "1"
cargo_metadata = "0.18"
clap = { version = "4.5", features = ["derive", "env"] }
data-encoding = "2.6"
humantime = "2.1"
rusb = "0.9"
