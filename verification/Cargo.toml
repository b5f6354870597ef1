[package]
name = "expense_tracker"
version = "0.1.0"
edition = "2021"
publish = false

[dependencies]
regex = "=1.13.1"
chrono = { version = "=0.4.45", default-features = false, features = ["std", "clock"] }
anyhow = "=1.0.104"
teloxide = { version = "=0.13.0", default-features = false, features = ["macros", "ctrlc_handler", "rustls"] }
takecell = "=0.1.1"
tokio = { version = "=1.54.1", features = ["rt-multi-thread", "macros", "sync"] }
sea-orm = { version = "=1.1.20", default-features = false, features = ["sqlx-postgres", "runtime-tokio-rustls", "macros", "with-chrono", "with-uuid"] }
sea-orm-migration = { version = "=1.1.20", default-features = false, features = ["sqlx-postgres", "runtime-tokio-rustls"] }
uuid = { version = "=1.29.0", features = ["v4"] }
dotenvy = "=0.15.7"
tracing = "=0.1.44"
tracing-subscriber = { version = "=0.3.23", features = ["env-filter"] }
reqwest = { version = "=0.11.27", default-features = false }
dptree = "=0.3.0"
async-trait = "=0.1.92"
ort = { version = "=2.0.0-rc.15", default-features = false, features = ["ndarray", "std", "load-dynamic"] }
tokenizers = { version = "=0.21.4", default-features = false, features = ["fancy-regex"] }
ndarray = "=0.17.2"
