[package]
name = "playdate_sdk_updater"
version = "0.1.0"
edition = "2021"
publish = false

[dependencies]
colored = "*"
flate2 = "1"
reqwest = { version = "0.12", default-features = false, features = ["json", "rustls-tls"] }
tar = "0.4"
tokio = { version = "1", features = ["macros", "rt-multi-thread", "fs"] }
