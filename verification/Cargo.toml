[package]
name = "term_clock"
version = "0.1.0"
edition = "2021"
publish = false

[dependencies]
chrono = "0.4"
clap = { version = "4", features = ["derive"] }
colors-transform = "0.2"
termion = "*"
