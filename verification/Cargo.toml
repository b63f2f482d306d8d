[package]
name = "chat_cli"
version = "0.1.0"
edition = "2021"
publish = false

[dependencies]
eyre = "=0.6.14"
rustyline = "=15.0.0"
winnow = "=0.6.26"

[dev-dependencies]
tempfile = "=3.27.0"
