[package]
name = "sam_wd"
version = "1.0.0"
edition = "2021"
publish = false

[dependencies]
chrono = "0.4"
clap = "3"
tokio = { version = "1", features = ["full"] }
