[package]
name = "smited-watch"
version = "0.1.0"
edition = "2021"
publish = false

[dependencies]
anyhow = "1"
bytes = "1"
clap = { version = "4", features = ["derive", "env"] }
crossterm = "*"
libc = "0.2"
portable-pty = "*"
prost = "*"
regex = "1"
serde = { version = "1", features = ["derive"] }
strip-ansi-escapes = "0.2"
tokio = { version = "1", features = ["full", "test-util"] }
toml = "*"
tonic = "*"
tonic-prost = "*"
tracing = "0.1"
tracing-subscriber = { version = "0.3", features = ["env-filter"] }
