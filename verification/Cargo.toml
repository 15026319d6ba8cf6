[package]
name = "momentum"
version = "0.1.0"
edition = "2021"
publish = false

[dependencies]
rusqlite = { version = "=0.40.2", features = ["bundled"] }
chrono = { version = "=0.4.45", features = ["serde"] }
log = "=0.4.34"
serde = { version = "=1.0.229", features = ["derive"] }
thiserror = "=2.0.21"
ts-rs = { version = "=12.0.1", features = ["chrono-impl"] }

[dev-dependencies]
tempfile = "3"
