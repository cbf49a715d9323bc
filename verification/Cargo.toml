[package]
name = "moodlight"
version = "0.1.0"
edition = "2021"
publish = false

[dependencies]
clap = { version = "=3.2.25", features = ["derive"] }
dittolive-ditto = "=4.14.7"
pyo3 = { version = "=0.16.6", features = ["auto-initialize"] }
