[package]
name = "outcomes_lookup"
version = "0.1.0"
edition = "2021"
publish = false

[dependencies]
argh = "0.1"
chrono = "0.4"
chrono-tz = "0.8"
clickhouse-rs = "1.1.0-alpha.1"
tokio = { version = "1", features = ["macros", "rt-multi-thread"] }
uuid = "1"
