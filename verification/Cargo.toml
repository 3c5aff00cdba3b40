[package]
name = "clipper"
version = "0.1.0"
edition = "2021"
publish = false

[dependencies]
clap = { version = "=4.6.7", features = ["derive"] }
owo-colors = "=4.4.0"
serde_yaml = "=0.9.34"
spinoff = "=0.8.0"

[dev-dependencies]
regex = "=1.13.1"
