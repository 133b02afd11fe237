[package]
name = "text_to_speech_rs"
version = "0.1.0"
edition = "2021"
publish = false

[dependencies]
dashmap = "6"
moka = { version = "0.12", features = ["sync"] }
sha2 = "0.10"
hex = "0.4"
regex = "1"
fluent = "0.17"
intl-memoizer = "0.5"
tokio = { version = "1", features = ["rt-multi-thread", "macros", "sync"] }
tracing = "0.1"
tracing-subscriber = { version = "0.3", default-features = false, features = ["std", "fmt", "env-filter"] }
anyhow = "1"
async-trait = "0.1"
serde = { version = "1", features = ["derive"] }
config = { version = "0.15", default-features = false, features = ["toml"] }
clap = { version = "4", default-features = false, features = ["std", "derive", "help"] }
thiserror = "2"
poise = "0.6"
songbird = "0.5"
