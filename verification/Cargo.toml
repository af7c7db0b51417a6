[package]
name = "terminal_core"
version = "0.1.0"
edition = "2021"
publish = false

[dependencies]
vte = { version = "*", features = ["ansi"] }
tokio = { version = "*", features = ["sync"] }
portable-pty = "*"
