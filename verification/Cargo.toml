[package]
name = "threadrook"
version = "0.1.0"
edition = "2021"
publish = false

[dependencies]
pleco = "*"
rand = "*"
tokio = { version = "*", features = ["sync", "time", "rt-multi-thread", "macros"] }
