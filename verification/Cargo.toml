[package]
name = "joku"
version = "0.1.0"
edition = "2021"
publish = false

[dependencies]
anyhow = "1"
basic-toml = "0.1"
futures-util = "0.3"
inquire = "*"
quick-xml = "*"
reqwest = { version = "0.12", default-features = false }
serde = { version = "1", features = ["derive"] }
serde_qs = "*"
serde-xml-rs = "*"
ssdp-client = "*"
structopt = "0.3"
tokio = { version = "1", features = ["macros", "rt-multi-thread", "time"] }
tracing = "0.1"
tracing-subscriber = { version = "0.3", features = ["env-filter"] }
