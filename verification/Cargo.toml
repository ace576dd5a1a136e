[package]
name = "llm_agent"
version = "0.1.0"
edition = "2021"
publish = false

[dependencies]
serde = { version = "=1.0.229", features = ["derive"] }
serde_json = "=1.0.154"
globset = "=0.4.21"
shellexpand = "=3.1.2"
chrono = "=0.4.45"
ratatui = "=0.30.2"
crossterm = "=0.29.0"
tui-input = "=0.15.5"
tokio = { version = "=1.54.1", features = ["full"] }
tokio-util = { version = "=0.7.20", features = ["rt", "join-map"] }
reqwest = { version = "=0.13.5", default-features = false }
async-trait = "=0.1.92"
nanoid = "=0.5.0"
tracing = "=0.1.44"
tracing-subscriber = "=0.3.23"
