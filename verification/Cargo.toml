[package]
name = "scrbrd"
version = "0.2.0"
edition = "2021"
publish = false

[dependencies]
clap = "*"
crossterm = "*"
ratatui = "*"
reqwest = { version = "*", default-features = false, features = ["json"] }
serde = { version = "*", features = ["derive"] }
tokio = { version = "*", features = ["macros", "rt-multi-thread"] }
