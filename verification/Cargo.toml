[package]
name = "nargo_test_runner"
version = "0.1.0"
edition = "2021"
publish = false

[dependencies]
clap = { version = "=4.6.7", features = ["derive"] }
termcolor = "=1.4.1"
