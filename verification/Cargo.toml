[package]
name = "backend"
version = "0.1.0"
edition = "2021"
publish = false

[dependencies]
serde = { version = "1", features = ["derive"] }
serde_json = "1"
tokio = { version = "1", features = ["rt", "rt-multi-thread", "macros", "io-util", "fs", "signal", "net"] }
tokio-postgres = "0.7"
postgres = "0.19"
sea-query = { version = "0.31", features = ["attr"] }
bcrypt = "0.15"
chrono = "0.4"
clap = { version = "4", features = ["derive"] }
lazy_static = "1"
