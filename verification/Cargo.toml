[package]
name = "great_appender"
version = "0.1.0"
edition = "2021"
publish = false

[dependencies]
bytefmt = "*"
clap = "*"
signal-hook = "*"
