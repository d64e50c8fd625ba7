[package]
name = "gitea_cli"
version = "0.1.0"
edition = "2021"
publish = false

[dependencies]
clap = { version = "=4.6.7", features = ["cargo"] }
colored = "=2.2.0"
open = "=5.4.5"
tokio = { version = "=1.54.1", features = ["macros", "rt-multi-thread"] }
