[package]
name = "liteparse_ruby"
version = "0.1.9"
edition = "2021"
publish = false

[dependencies]
liteparse = { version = "2", default-features = false }
magnus = "0.8"
tokio = { version = "1", features = ["rt-multi-thread", "sync"] }
