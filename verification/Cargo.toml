[package]
name = "megane"
version = "0.1.0"
edition = "2021"
publish = false

[dependencies]
chrono = "0.4"
anyhow = "1"
async-trait = "0.1"
clap = "2"
crossterm = "0.25"
tokio = { version = "1", features = ["rt-multi-thread", "macros", "time"] }
tui = "0.19"
rusoto_core = { version = "0.48", default-features = false, features = ["rustls"] }
rusoto_logs = { version = "0.48", default-features = false, features = ["rustls"] }
