[package]
name = "tonegen"
version = "0.1.0"
edition = "2021"
publish = false

[dependencies]
clap = { version = "=3.2.25", features = ["derive"] }

[dev-dependencies]
hound = "3.5"
