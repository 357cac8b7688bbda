[package]
name = "knock_knock"
version = "0.1.0"
edition = "2021"
publish = false

[dependencies]
chrono = "0.4"
clap = "3"
rdap_client = "*"
tokio = { version = "1", features = ["macros", "rt-multi-thread"] }
