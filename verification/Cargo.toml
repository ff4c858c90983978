[package]
name = "bedrockci"
version = "0.1.0"
edition = "2021"
publish = false

[dependencies]
anyhow = "*"
clap = { version = "*", features = ["cargo"] }
colored = "*"
dirs = "*"
futures = "*"
reqwest = { version = "*", default-features = false, features = ["stream"] }
serde = { version = "*", features = ["derive"] }
serde_json = "*"
tempfile = "*"
tokio = { version = "*", features = ["io-util", "macros", "process", "rt-multi-thread", "signal", "time"] }
zip = { version = "*", default-features = false, features = ["deflate"] }
