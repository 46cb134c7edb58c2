[package]
name = "command_guard"
version = "0.1.0"
edition = "2021"
publish = false

[dependencies]
fancy-regex = "0.14"
shell-words = "1"
