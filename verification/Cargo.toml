[package]
name = "babelio_search"
version = "0.1.0"
edition = "2021"
publish = false

[dependencies]
cli-clipboard = "0.4"
color-eyre = "0.6"
crossterm = "0.28"
encoding_rs = "0.8"
ratatui = "0.29"
regex = "1"
reqwest = "0.12"
tokio = { version = "1", features = ["rt-multi-thread"] }
