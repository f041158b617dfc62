[package]
name = "bouncer"
version = "0.1.0"
edition = "2021"
publish = false

[dependencies]
twilight-validate = "*"
twilight-model = "*"
twilight-gateway = "*"
twilight-http = "*"
twilight-cache-inmemory = "*"
twilight-util = { version = "*", features = ["builder"] }
tokio = { version = "*", features = ["full"] }
clap = { version = "*", features = ["derive"] }
figment = { version = "*", features = ["yaml", "env"] }
serde = { version = "*", features = ["derive"] }
secrecy = { version = "*", features = ["serde"] }
thiserror = "*"
anyhow = "*"
tracing = "*"
tracing-subscriber = "*"

[dev-dependencies]
tempfile = "*"
