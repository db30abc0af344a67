[package]
name = "collie"
version = "0.1.0"
edition = "2021"
publish = false

[dependencies]
atom_syndication = "=0.12.10"
chrono = { version = "=0.4.45", features = ["serde"] }
regex = "=1.13.1"
reqwest = { version = "=0.11.27", features = ["blocking"] }
rss = "=2.0.6"
rusqlite = { version = "=0.38.0", features = ["bundled", "chrono"] }
scraper = "=0.18.1"
sea-query = { version = "=1.0.2", features = ["derive", "backend-sqlite", "with-chrono"] }
sea-query-rusqlite = { version = "=0.8.0", features = ["with-chrono"] }
serde = { version = "=1.0.229", features = ["derive"] }
sha1_smol = { version = "=1.0.1", features = ["std"] }
thiserror = "=1.0.69"
tokio = { version = "=1.54.1", features = ["macros", "rt-multi-thread", "time"] }
