[package]
name = "shardpack"
version = "0.1.0"
edition = "2021"
publish = false

[dependencies]
anyhow = "*"
clap = { version = "*", features = ["derive"] }
crossbeam-channel = "*"
ignore = "*"
progress-streams = "*"
rayon = "*"
tar = "*"
tracing = "*"
tracing-bunyan-formatter = "*"
tracing-subscriber = { version = "*", features = ["env-filter"] }
zstd = { version = "*", features = ["zstdmt"] }
