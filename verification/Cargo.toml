[package]
name = "symbol_finder"
version = "0.1.0"
edition = "2021"
publish = false

[dependencies]
ansi-to-tui = "*"
bat = { version = "*", default-features = false, features = ["regex-fancy"] }
clap = { version = "4", features = ["derive"] }
flexi_logger = "*"
futures = "0.3"
fuzzy-matcher = "*"
log = "0.4"
nvim-rs = { version = "*", features = ["use_tokio"] }
priority-queue = "*"
proc-macro2 = { version = "1", features = ["span-locations"] }
ratatui = "*"
rust_search = "*"
syn = { version = "2", features = ["full"] }
tokio = { version = "1", features = ["full"] }
