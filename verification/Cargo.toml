[package]
name = "notes_bot"
version = "0.1.0"
edition = "2021"
rust-version = "1.95"
publish = false

[dependencies]
rand = "0.8"
clap = { version = "4", features = ["derive", "env"] }
dotenvy = "0.15"
log = "0.4"
pretty_env_logger = "0.5"
reqwest = { version = "0.11", default-features = false, features = ["json", "rustls-tls"] }
serde = { version = "1", features = ["derive"] }
serde_json = "1"
teloxide = { version = "0.12", default-features = false, features = ["rustls", "ctrlc_handler"] }
tokio = { version = "1", features = ["macros", "rt-multi-thread"] }
# teloxide-core depends on takecell 0.1, whose newest patch asks for a newer
# rustc than this crate's rust-version; the older patch keeps the build on it.
takecell = "=0.1.1"
