[package]
name = "browser_use"
version = "0.1.0"
edition = "2021"
publish = false

[dependencies]
serde = { version = "=1.0.229", features = ["derive"] }
serde_json = "=1.0.154"
headless_chrome = "=1.0.22"
rmcp = { version = "=1.6.0", features = ["server", "macros", "transport-io", "transport-streamable-http-server"] }
axum = "=0.8.9"
tokio = { version = "=1.54.1", features = ["macros", "rt", "net", "signal", "io-std"] }
clap = { version = "=4.6.7", features = ["derive"] }
schemars = "=1.2.3"
tempfile = "=3.27.0"
log = "=0.4.35"
env_logger = "=0.11.11"
htmd = "=0.5.6"
