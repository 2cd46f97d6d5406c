[package]
name = "mc_console"
version = "0.1.0"
edition = "2021"
publish = false

[dependencies]
regex = "1"
tokio = { version = "1", features = ["process", "io-util", "time", "macros", "rt-multi-thread"] }
async-trait = "0.1"
crossterm = "0.25"
tui = "0.19"
