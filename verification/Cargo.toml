[package]
name = "gpudash"
version = "0.1.0"
edition = "2021"
publish = false

[dependencies]
anyhow = "1"
crossterm = "0.27"
nvml-wrapper = "0.9"
rand = "0.8"
ratatui = "0.26"
