[package]
name = "guess_the_sharpe"
version = "0.1.0"
edition = "2021"
publish = false

[dependencies]
clap = { version = "4", features = ["derive"] }
compact_str = "*"
crossterm = "*"
rand = "*"
rand_chacha = "*"
rand_distr = "*"
ratatui = "*"
