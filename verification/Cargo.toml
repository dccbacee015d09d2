[package]
name = "charge_budget"
version = "0.1.0"
edition = "2021"
publish = false

[dependencies]
anyhow = "1"
chrono = "0.4"
chrono-tz = "0.10"
log = "0.4"
poloto = "19"
reqwest = { version = "0.12", default-features = false, features = ["rustls-tls"] }
rocket = { version = "0.5", features = ["json"] }
rocket_db_pools = { version = "0.2", features = ["sqlx_sqlite"] }
rocket-governor = "0.2.0-rc.4"
serde = { version = "1", features = ["derive"] }
serde_json = "1"
