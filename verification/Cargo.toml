[package]
name = "indexer_rules_engine"
version = "0.1.0"
edition = "2021"
publish = false

[dependencies]
anyhow = "1"
borsh = { version = "1", features = ["derive"] }
clap = { version = "4", default-features = false, features = ["std", "help", "usage", "derive", "env"] }
dotenv = "0.15"
futures = "0.3"
near-indexer-primitives = "*"
serde = { version = "1", features = ["derive"] }
serde_json = "1"
tokio = { version = "1", features = ["rt-multi-thread", "macros", "sync"] }
tokio-stream = "0.1"
tracing = "0.1"
tracing-subscriber = { version = "0.3", default-features = false, features = ["std", "fmt", "env-filter"] }

[dev-dependencies]
wildmatch = "2"
