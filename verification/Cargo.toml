[package]
name = "singleton_client"
version = "0.1.0"
edition = "2021"
publish = false

[dependencies]
console = { version = "0.15", default-features = false }
tokio = { version = "1", default-features = false, features = ["macros", "sync"] }
