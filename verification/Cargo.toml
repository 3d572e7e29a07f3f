[package]
name = "nitrous"
version = "0.1.0"
edition = "2021"
publish = false

[dependencies]
rand = "0.8"
tokio = { version = "1", features = ["rt-multi-thread", "macros", "sync", "fs", "io-util"] }
reqwest = { version = "0.11", default-features = false, features = ["socks"] }
futures = "0.3"
structopt = "0.3"
