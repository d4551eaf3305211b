[package]
name = "reign_ng"
version = "0.1.0"
edition = "2021"
publish = false

[dependencies]
anyhow = "*"
chrono = "*"
futures = "*"
glob = "*"
num_cpus = "*"
tokio = { version = "*", features = ["macros", "rt-multi-thread", "process", "fs", "io-util", "signal"] }
tracing = "*"
tracing-subscriber = { version = "*", features = ["env-filter"] }
uuidv4 = "*"
