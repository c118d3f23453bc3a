[package]
name = "nerd_backup"
version = "0.1.0"
edition = "2021"
publish = false

[dependencies]
anyhow = "*"
bollard = "*"
dotenvy = "*"
envy = "*"
humantime = "*"
iso8601 = "*"
serde = { version = "*", features = ["derive"] }
thiserror = "*"
tokio = { version = "*", features = ["macros", "rt-multi-thread", "signal", "time", "process"] }
tracing = "*"
tracing-subscriber = "*"
