[package]
name = "scrape_engine"
version = "0.1.0"
edition = "2021"
publish = false

[dependencies]
scraper = "*"
regex = "*"
lettre = { version = "*", default-features = false, features = ["builder", "smtp-transport"] }
tokio-cron-scheduler = "*"
tokio = { version = "*", features = ["rt-multi-thread", "macros", "sync", "time"] }
uuid = { version = "*", features = ["v4"] }
chrono = "*"
reqwest = { version = "*", default-features = false }
rusqlite = { version = "*", features = ["bundled"] }
csv = "*"
serde = { version = "*", features = ["derive"] }
serde_json = "*"
