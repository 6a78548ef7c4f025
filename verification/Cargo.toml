[package]
name = "fetch_pipeline"
version = "0.1.0"
edition = "2021"
publish = false

[dependencies]
tokio = { version = "1", features = ["rt-multi-thread", "macros", "sync", "time"] }
reqwest = { version = "0.12", default-features = false }
futures = "0.3"
color-eyre = "0.6"
cursive = { version = "*", default-features = false, features = ["crossterm-backend"] }
