[package]
name = "hk"
version = "0.1.0"
edition = "2021"
publish = false

[dependencies]
log = { version = "0.4", features = ["std"] }
console = "*"
git2 = { version = "*", default-features = false }
tokio = { version = "1", features = ["macros", "rt-multi-thread", "signal"] }
clap = { version = "4", features = ["derive"] }
serde = { version = "1", features = ["derive"] }
serde_with = "*"
chrono = "*"
dirs = "*"
miette = "*"
itertools = "*"
xx = "*"
ensembler = "*"
clx = "*"
