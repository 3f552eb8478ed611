[package]
name = "rtt_file_logger"
version = "0.1.0"
edition = "2021"
publish = false

[dependencies]
goblin = "*"
ctrlc = "*"
probe-rs = "0.14"
probe-rs-rtt = "0.14"
serde = { version = "*", features = ["derive"] }
structopt = "*"
toml = "*"
tracing = "*"
tracing-subscriber = { version = "*", features = ["env-filter"] }
