[package]
name = "guardian_agent_linux"
version = "0.1.0"
edition = "2021"
publish = false

[dependencies]
users = "=0.11.0"
flate2 = "=1.1.10"
tar = "=0.4.46"
serde_json = "=1.0.154"
tokio = { version = "=1.54.1", features = ["rt-multi-thread", "macros", "sync", "time"] }
futures-util = "=0.3.34"
zbus = "=5.19.0"
logind-zbus = "=5.3.2"
reqwest = { version = "=0.12.28", default-features = false, features = ["rustls-tls"] }
sentry = { version = "=0.49.5", default-features = false }
kdotool = "=0.3.0"
