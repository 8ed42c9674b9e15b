[package]
name = "neo"
version = "0.1.0"
edition = "2021"
publish = false

[dependencies]
clap = { version = "4", features = ["derive"] }
crossterm = "*"
homedir = "*"
owo-colors = "*"
tokio = { version = "1", features = ["io-std", "io-util", "macros", "process", "rt-multi-thread", "sync"] }
uuid = { version = "1", features = ["v4"] }
whoami = "*"
