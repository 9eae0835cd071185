[package]
name = "kagibako"
version = "0.1.0"
edition = "2021"
publish = false

[dependencies]
anyhow = "=1.0.104"
clap = { version = "=4.6.7", features = ["derive", "env"] }
dirs = "=6.0.0"
egaku = "=0.1.22"
hasami = "=0.1.2"
kaname = "=0.1.2"
reqwest = { version = "=0.12.28", default-features = false, features = ["json", "rustls-tls"] }
schemars = "=1.2.3"
serde = { version = "=1.0.229", features = ["derive"] }
serde_json = "=1.0.154"
shikumi = "=0.1.1084"
soushi = "=0.1.1"
thiserror = "=2.0.21"
tokio = { version = "=1.54.1", features = ["rt-multi-thread", "macros", "time", "sync", "io-std"] }
tracing = "=0.1.44"
tracing-subscriber = { version = "=0.3.23", features = ["env-filter"] }
zeroize = { version = "=1.9.1", features = ["derive"] }
